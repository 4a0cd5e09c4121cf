use vstd::prelude::*;
use crate::address::Address;
use crate::error::ErrorCode;
use crate::movement::{Authority, Party, TokenBurn};

verus! {

/// One billion tokens at nine decimals.
pub const TOTAL_SUPPLY: u64 = 1_000_000_000 * 1_000_000_000;

/// One thousand tokens at nine decimals.
pub const PLANET_CREATION_COST: u64 = 1_000 * 1_000_000_000;

pub const MAX_PLANETS_PER_USER: u8 = 10;

/// Daily reward rate of a new planet, in percent.
pub const BASE_REWARD_RATE: u8 = 4;

/// Eight hours, in seconds.
pub const REWARD_INTERVAL: u32 = 28_800;

/// One year, in seconds.
pub const VESTING_DURATION: i64 = 365 * 24 * 60 * 60;

/// Global economic parameters and the admin identity.
#[derive(Clone, Copy, Debug)]
pub struct Config {
    pub total_supply: u64,
    pub planet_creation_cost: u64,
    pub max_planets_per_user: u8,
    pub reward_rate: u8,
    pub reward_interval: u32,
    pub token_mint: Address,
    pub admin: Address,
    pub reward_pool: Address,
    pub team_wallet: Address,
    pub marketing_wallet: Address,
    pub liquidity_wallet: Address,
    pub authority_bump: u8,
    pub transaction_tax_rate: u8,
    pub liquidity_tax_rate: u8,
    pub reward_tax_rate: u8,
    pub nft_transfer_tax_rate: u8,
    pub team_nft_tax_rate: u8,
    pub reward_nft_tax_rate: u8,
    pub vesting_start_time: i64,
    pub ecosystem_vesting_duration: i64,
    pub treasury_vesting_duration: i64,
}

/// The value an optional override leaves in place.
pub open spec fn or_keep<T>(o: Option<T>, current: T) -> T {
    match o {
        Some(v) => v,
        None => current,
    }
}

impl Config {
    /// The two sub-splits of the transaction tax do not exceed it.
    pub open spec fn tax_rates_valid(&self) -> bool {
        self.liquidity_tax_rate + self.reward_tax_rate <= self.transaction_tax_rate
    }

    /// The NFT transfer tax is at most the whole position, and its two sub-splits do not
    /// exceed it.
    pub open spec fn nft_tax_rates_valid(&self) -> bool {
        &&& self.nft_transfer_tax_rate <= 100
        &&& self.team_nft_tax_rate + self.reward_nft_tax_rate <= self.nft_transfer_tax_rate
    }

    pub open spec fn wf(&self) -> bool {
        &&& self.reward_interval > 0
        &&& self.tax_rates_valid()
        &&& self.nft_tax_rates_valid()
        &&& self.ecosystem_vesting_duration > 0
        &&& self.treasury_vesting_duration > 0
    }

    /// The configuration after applying the given overrides, before validation.
    pub open spec fn overridden(
        self,
        reward_rate: Option<u8>,
        planet_creation_cost: Option<u64>,
        transaction_tax_rate: Option<u8>,
        liquidity_tax_rate: Option<u8>,
        reward_tax_rate: Option<u8>,
    ) -> Config {
        Config {
            reward_rate: or_keep(reward_rate, self.reward_rate),
            planet_creation_cost: or_keep(planet_creation_cost, self.planet_creation_cost),
            transaction_tax_rate: or_keep(transaction_tax_rate, self.transaction_tax_rate),
            liquidity_tax_rate: or_keep(liquidity_tax_rate, self.liquidity_tax_rate),
            reward_tax_rate: or_keep(reward_tax_rate, self.reward_tax_rate),
            ..self
        }
    }
}

/// Bootstraps the configuration with the fixed economic constants; `admin` becomes the admin
/// and vesting starts at `now`.
pub fn initialize(
    token_mint: Address,
    admin: Address,
    reward_pool: Address,
    team_wallet: Address,
    marketing_wallet: Address,
    liquidity_wallet: Address,
    authority_bump: u8,
    now: i64,
) -> (c: Config)
    ensures
        c.wf(),
        c.total_supply == TOTAL_SUPPLY,
        c.planet_creation_cost == PLANET_CREATION_COST,
        c.max_planets_per_user == MAX_PLANETS_PER_USER,
        c.reward_rate == BASE_REWARD_RATE,
        c.reward_interval == REWARD_INTERVAL,
        c.token_mint == token_mint,
        c.admin == admin,
        c.reward_pool == reward_pool,
        c.team_wallet == team_wallet,
        c.marketing_wallet == marketing_wallet,
        c.liquidity_wallet == liquidity_wallet,
        c.authority_bump == authority_bump,
        c.transaction_tax_rate == 3,
        c.liquidity_tax_rate == 1,
        c.reward_tax_rate == 2,
        c.nft_transfer_tax_rate == 5,
        c.team_nft_tax_rate == 2,
        c.reward_nft_tax_rate == 3,
        c.vesting_start_time == now,
        c.ecosystem_vesting_duration == VESTING_DURATION,
        c.treasury_vesting_duration == VESTING_DURATION,
{
    Config {
        total_supply: TOTAL_SUPPLY,
        planet_creation_cost: PLANET_CREATION_COST,
        max_planets_per_user: MAX_PLANETS_PER_USER,
        reward_rate: BASE_REWARD_RATE,
        reward_interval: REWARD_INTERVAL,
        token_mint,
        admin,
        reward_pool,
        team_wallet,
        marketing_wallet,
        liquidity_wallet,
        authority_bump,
        transaction_tax_rate: 3,
        liquidity_tax_rate: 1,
        reward_tax_rate: 2,
        nft_transfer_tax_rate: 5,
        team_nft_tax_rate: 2,
        reward_nft_tax_rate: 3,
        vesting_start_time: now,
        ecosystem_vesting_duration: VESTING_DURATION,
        treasury_vesting_duration: VESTING_DURATION,
    }
}

fn keep_or<T: Copy>(o: Option<T>, current: T) -> (r: T)
    ensures
        r == or_keep(o, current),
{
    match o {
        Some(v) => v,
        None => current,
    }
}

/// Applies the given overrides. Only the admin may do so, and the transaction tax's
/// sub-splits must not exceed it afterwards; on either failure nothing changes.
pub fn update_config(
    config: &mut Config,
    caller: Address,
    reward_rate: Option<u8>,
    planet_creation_cost: Option<u64>,
    transaction_tax_rate: Option<u8>,
    liquidity_tax_rate: Option<u8>,
    reward_tax_rate: Option<u8>,
) -> (r: Result<(), ErrorCode>)
    ensures
        ({
            let updated = old(config).overridden(
                reward_rate,
                planet_creation_cost,
                transaction_tax_rate,
                liquidity_tax_rate,
                reward_tax_rate,
            );
            if caller@ != old(config).admin@ {
                r == Err::<(), ErrorCode>(ErrorCode::Unauthorized) && *final(config) == *old(config)
            } else if !updated.tax_rates_valid() {
                r == Err::<(), ErrorCode>(ErrorCode::InvalidTaxRates) && *final(config) == *old(config)
            } else {
                r == Ok::<(), ErrorCode>(()) && *final(config) == updated
            }
        }),
        r is Ok ==> final(config).tax_rates_valid(),
        old(config).tax_rates_valid() ==> final(config).tax_rates_valid(),
        old(config).wf() ==> final(config).wf(),
{
    if caller != config.admin {
        return Err(ErrorCode::Unauthorized);
    }
    let new_transaction_tax_rate = keep_or(transaction_tax_rate, config.transaction_tax_rate);
    let new_liquidity_tax_rate = keep_or(liquidity_tax_rate, config.liquidity_tax_rate);
    let new_reward_tax_rate = keep_or(reward_tax_rate, config.reward_tax_rate);
    if new_liquidity_tax_rate as u16 + new_reward_tax_rate as u16 > new_transaction_tax_rate as u16 {
        return Err(ErrorCode::InvalidTaxRates);
    }
    config.reward_rate = keep_or(reward_rate, config.reward_rate);
    config.planet_creation_cost = keep_or(planet_creation_cost, config.planet_creation_cost);
    config.transaction_tax_rate = new_transaction_tax_rate;
    config.liquidity_tax_rate = new_liquidity_tax_rate;
    config.reward_tax_rate = new_reward_tax_rate;
    Ok(())
}

/// Asks to destroy `amount` tokens of the burn reserve under the caller's own signature.
/// Only the admin may burn (`Unauthorized`). No record changes.
pub fn burn_tokens(config: &Config, caller: Address, amount: u64) -> (r: Result<TokenBurn, ErrorCode>)
    ensures
        r == if caller@ == config.admin@ {
            Ok::<TokenBurn, ErrorCode>(
                TokenBurn { from: Party::BurnReserve, authority: Authority::Caller, amount },
            )
        } else {
            Err::<TokenBurn, ErrorCode>(ErrorCode::Unauthorized)
        },
{
    if caller != config.admin {
        return Err(ErrorCode::Unauthorized);
    }
    Ok(TokenBurn { from: Party::BurnReserve, authority: Authority::Caller, amount })
}

} // verus!
