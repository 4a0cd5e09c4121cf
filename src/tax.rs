use vstd::prelude::*;
use crate::config::Config;
use crate::error::ErrorCode;
use crate::movement::{Authority, Party, TokenMove};

verus! {

/// `rate` percent of `amount`, truncated toward zero.
pub open spec fn percent_of(amount: int, rate: int) -> int {
    amount * rate / 100
}

/// The team's part of an NFT transfer tax: `tax * (team_rate / nft_rate)`, truncated.
pub open spec fn team_share(tax: int, team_rate: int, nft_rate: int) -> int {
    if nft_rate == 0 {
        0
    } else {
        tax * team_rate / nft_rate
    }
}

/// How a transaction-taxed amount is divided.
#[derive(Clone, Copy, Debug, PartialEq, Eq, Structural)]
pub struct TaxSplit {
    /// What reaches the recipient: the amount less the whole tax.
    pub net: u64,
    pub total_tax: u64,
    pub liquidity_tax: u64,
    pub reward_tax: u64,
}

/// How the tax on a planet transfer is divided.
#[derive(Clone, Copy, Debug, PartialEq, Eq, Structural)]
pub struct NftTax {
    pub tax: u64,
    pub team_tax: u64,
    pub reward_tax: u64,
}

fn percent(amount: u64, rate: u8) -> (r: u128)
    ensures
        r == percent_of(amount as int, rate as int),
        r <= amount * 255 / 100,
{
    proof {
        assert(amount * rate <= amount * 255) by (nonlinear_arith)
            requires
                rate <= 255,
        ;
        vstd::arithmetic::div_mod::lemma_div_is_ordered(amount * rate, amount * 255, 100);
    }
    (amount as u128) * (rate as u128) / 100
}

/// Splits `amount` by the configured transaction tax rates. Fails with
/// `InvalidTaxCalculation` when the two sub-taxes, each truncated on its own, exceed the
/// truncated whole tax. Any rounding slack between them stays in `net`.
pub fn apply_transaction_tax(amount: u64, config: &Config) -> (r: Result<TaxSplit, ErrorCode>)
    requires
        percent_of(amount as int, config.transaction_tax_rate as int) <= amount,
    ensures
        ({
            let total = percent_of(amount as int, config.transaction_tax_rate as int);
            let liquidity = percent_of(amount as int, config.liquidity_tax_rate as int);
            let reward = percent_of(amount as int, config.reward_tax_rate as int);
            if liquidity + reward > total {
                r == Err::<TaxSplit, ErrorCode>(ErrorCode::InvalidTaxCalculation)
            } else {
                r is Ok && r->Ok_0.total_tax == total && r->Ok_0.liquidity_tax == liquidity
                    && r->Ok_0.reward_tax == reward && r->Ok_0.net == amount - total
            }
        }),
        config.tax_rates_valid() ==> r is Ok,
{
    let total_tax = percent(amount, config.transaction_tax_rate);
    let liquidity_tax = percent(amount, config.liquidity_tax_rate);
    let reward_tax = percent(amount, config.reward_tax_rate);
    proof {
        if config.tax_rates_valid() {
            let a = amount as int;
            let l = config.liquidity_tax_rate as int;
            let w = config.reward_tax_rate as int;
            let t = config.transaction_tax_rate as int;
            assert(a * l / 100 + a * w / 100 <= (a * l + a * w) / 100) by {
                vstd::arithmetic::div_mod::lemma_fundamental_div_mod(a * l, 100);
                vstd::arithmetic::div_mod::lemma_fundamental_div_mod(a * w, 100);
                vstd::arithmetic::div_mod::lemma_fundamental_div_mod_converse(
                    a * l + a * w,
                    100,
                    a * l / 100 + a * w / 100 + (a * l % 100 + a * w % 100) / 100,
                    (a * l % 100 + a * w % 100) % 100,
                );
            }
            assert(a * l + a * w <= a * t) by (nonlinear_arith)
                requires
                    l + w <= t,
                    a >= 0,
            ;
            vstd::arithmetic::div_mod::lemma_div_is_ordered(a * l + a * w, a * t, 100);
        }
    }
    if liquidity_tax + reward_tax > total_tax {
        return Err(ErrorCode::InvalidTaxCalculation);
    }
    Ok(
        TaxSplit {
            net: amount - total_tax as u64,
            total_tax: total_tax as u64,
            liquidity_tax: liquidity_tax as u64,
            reward_tax: reward_tax as u64,
        },
    )
}

/// The transfers of a taxed transfer, in the order they are made: liquidity tax, reward
/// tax, net amount, all from the caller and signed by the caller.
pub open spec fn taxed_transfer_moves(liquidity_tax: u64, reward_tax: u64, net: u64) -> Seq<TokenMove> {
    seq![
        TokenMove {
            from: Party::Caller,
            to: Party::LiquidityWallet,
            authority: Authority::Caller,
            amount: liquidity_tax,
        },
        TokenMove { from: Party::Caller, to: Party::RewardPool, authority: Authority::Caller, amount: reward_tax },
        TokenMove { from: Party::Caller, to: Party::Recipient, authority: Authority::Caller, amount: net },
    ]
}

/// Sends `amount` from the caller to the recipient under the transaction tax: the three
/// transfers, liquidity tax, reward tax and net amount, in that order, all signed by the caller.
pub fn transfer_with_tax(amount: u64, config: &Config) -> (r: Result<Vec<TokenMove>, ErrorCode>)
    requires
        percent_of(amount as int, config.transaction_tax_rate as int) <= amount,
    ensures
        ({
            let total = percent_of(amount as int, config.transaction_tax_rate as int);
            let liquidity = percent_of(amount as int, config.liquidity_tax_rate as int);
            let reward = percent_of(amount as int, config.reward_tax_rate as int);
            if liquidity + reward > total {
                r == Err::<Vec<TokenMove>, ErrorCode>(ErrorCode::InvalidTaxCalculation)
            } else {
                r is Ok && r->Ok_0@ == taxed_transfer_moves(
                    liquidity as u64,
                    reward as u64,
                    (amount - total) as u64,
                )
            }
        }),
{
    let split = apply_transaction_tax(amount, config)?;
    let mut moves: Vec<TokenMove> = Vec::new();
    moves.push(
        TokenMove {
            from: Party::Caller,
            to: Party::LiquidityWallet,
            authority: Authority::Caller,
            amount: split.liquidity_tax,
        },
    );
    moves.push(
        TokenMove {
            from: Party::Caller,
            to: Party::RewardPool,
            authority: Authority::Caller,
            amount: split.reward_tax,
        },
    );
    moves.push(
        TokenMove {
            from: Party::Caller,
            to: Party::Recipient,
            authority: Authority::Caller,
            amount: split.net,
        },
    );
    proof {
        assert(moves@ =~= taxed_transfer_moves(split.liquidity_tax, split.reward_tax, split.net));
    }
    Ok(moves)
}

/// Tax on transferring a position with `locked_tokens` locked: the NFT transfer tax rate
/// applied to the locked balance, of which the team gets its pro-rata part and the reward
/// pool the rest, so that the two parts always sum to the whole tax.
pub fn split_nft_tax(locked_tokens: u64, config: &Config) -> (r: NftTax)
    requires
        config.nft_tax_rates_valid(),
    ensures
        r.tax == percent_of(locked_tokens as int, config.nft_transfer_tax_rate as int),
        r.team_tax == team_share(
            r.tax as int,
            config.team_nft_tax_rate as int,
            config.nft_transfer_tax_rate as int,
        ),
        r.reward_tax == r.tax - r.team_tax,
        r.team_tax + r.reward_tax == r.tax,
{
    let tax = percent(locked_tokens, config.nft_transfer_tax_rate);
    proof {
        assert(locked_tokens * config.nft_transfer_tax_rate <= locked_tokens * 100) by (nonlinear_arith)
            requires
                config.nft_transfer_tax_rate <= 100,
        ;
        vstd::arithmetic::div_mod::lemma_div_is_ordered(
            locked_tokens * config.nft_transfer_tax_rate,
            locked_tokens * 100,
            100,
        );
        vstd::arithmetic::div_mod::lemma_div_by_multiple(locked_tokens as int, 100);
    }
    let tax = tax as u64;
    let team_tax: u64 = if config.nft_transfer_tax_rate == 0 {
        0
    } else {
        proof {
            let t = tax as int;
            let m = config.team_nft_tax_rate as int;
            let n = config.nft_transfer_tax_rate as int;
            assert(t * m <= t * n) by (nonlinear_arith)
                requires
                    m <= n,
                    t >= 0,
            ;
            assert(t * n <= 0xffff_ffff_ffff_ffff * 100) by (nonlinear_arith)
                requires
                    0 <= t <= 0xffff_ffff_ffff_ffff,
                    0 <= n <= 100,
            ;
            vstd::arithmetic::div_mod::lemma_div_is_ordered(t * m, t * n, n);
            vstd::arithmetic::div_mod::lemma_div_by_multiple(t, n);
            assert(t * n / n == t) by {
                vstd::arithmetic::mul::lemma_mul_is_commutative(t, n);
            }
        }
        ((tax as u128) * (config.team_nft_tax_rate as u128) / (config.nft_transfer_tax_rate as u128)) as u64
    };
    NftTax { tax, team_tax, reward_tax: tax - team_tax }
}

} // verus!
