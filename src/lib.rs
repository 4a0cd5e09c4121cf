//! Economic rules of a yield game on a token ledger: planets lock tokens and accrue
//! time-gated rewards, rewards are claimed or compounded up a tier ladder, planets change
//! hands under a tax, token transfers are taxed, and reserved allocations vest linearly.
//! Operations return the token movements they need; executing them is up to the host.

mod address;
mod config;
mod error;
mod ladder;
mod movement;
mod planet;
mod reward;
mod tax;
mod vesting;

pub use address::Address;
pub use config::{
    burn_tokens, initialize, or_keep, update_config, Config, BASE_REWARD_RATE, MAX_PLANETS_PER_USER,
    PLANET_CREATION_COST, REWARD_INTERVAL, TOTAL_SUPPLY, VESTING_DURATION,
};
pub use error::ErrorCode;
pub use ladder::{get_planet_name_for_level, get_reward_for_level, ladder_name, ladder_rate};
pub use movement::{Authority, Party, TokenBurn, TokenMove};
pub use tax::{
    apply_transaction_tax, percent_of, split_nft_tax, taxed_transfer_moves, team_share, transfer_with_tax, NftTax, TaxSplit,
};
pub use planet::{
    claim_rewards, compound_rewards, create_planet, initialize_user, next_rate, nft_tax_moves,
    pending_reward, transfer_planet, without, Planet, User,
};
pub use reward::{
    accrued, calculate_reward, cap_u64, lemma_accrued_linear_in_rate, lemma_accrued_scales_with_rate, lemma_reward_monotone_in_elapsed,
    lemma_reward_monotone_in_locked, lemma_reward_monotone_in_rate, reward_spec,
};
pub use vesting::{
    claim_vested_tokens, claimable_at, duration_of, remaining_at, setup_vesting, vested, vested_amount,
    Vesting, VestingType,
};
