use vstd::prelude::*;
use crate::address::Address;
use crate::config::Config;
use crate::error::ErrorCode;
use crate::movement::{Authority, Party, TokenMove};
use crate::reward::cap_u64;

verus! {

/// Selects one of the two vesting allocations.
#[derive(Clone, Copy, Debug, PartialEq, Eq, Structural)]
pub enum VestingType {
    Ecosystem,
    Treasury,
}

/// The reserved allocations and what has been paid out of each so far.
#[derive(Clone, Copy, Debug, PartialEq, Eq, Structural)]
pub struct Vesting {
    pub ecosystem_amount: u64,
    pub treasury_amount: u64,
    /// Recorded for information; no claims are made against it.
    pub burn_reserve_amount: u64,
    pub ecosystem_claimed: u64,
    pub treasury_claimed: u64,
    pub last_claim_time: i64,
}

/// What linear vesting has released of `amount` after `elapsed` of `duration` seconds,
/// truncated. Nothing before the start; not clamped at the end of the duration.
pub open spec fn vested(amount: int, duration: int, elapsed: int) -> int {
    if elapsed <= 0 {
        0
    } else {
        cap_u64(amount * elapsed / duration)
    }
}

impl Vesting {
    pub open spec fn amount_of(self, track: VestingType) -> u64 {
        match track {
            VestingType::Ecosystem => self.ecosystem_amount,
            VestingType::Treasury => self.treasury_amount,
        }
    }

    pub open spec fn claimed_of(self, track: VestingType) -> u64 {
        match track {
            VestingType::Ecosystem => self.ecosystem_claimed,
            VestingType::Treasury => self.treasury_claimed,
        }
    }

    /// This record with the claimed counter of `track` set to `claimed`.
    pub open spec fn with_claimed(self, track: VestingType, claimed: u64) -> Vesting {
        match track {
            VestingType::Ecosystem => Vesting { ecosystem_claimed: claimed, ..self },
            VestingType::Treasury => Vesting { treasury_claimed: claimed, ..self },
        }
    }
}

pub open spec fn duration_of(config: Config, track: VestingType) -> i64 {
    match track {
        VestingType::Ecosystem => config.ecosystem_vesting_duration,
        VestingType::Treasury => config.treasury_vesting_duration,
    }
}

/// What `track` has released by `now`.
pub open spec fn claimable_at(vesting: Vesting, config: Config, track: VestingType, now: i64) -> int {
    vested(
        vesting.amount_of(track) as int,
        duration_of(config, track) as int,
        now - config.vesting_start_time,
    )
}

/// What `track` has released by `now` and has not been paid yet.
pub open spec fn remaining_at(vesting: Vesting, config: Config, track: VestingType, now: i64) -> int {
    let claimable = claimable_at(vesting, config, track, now);
    if claimable > vesting.claimed_of(track) {
        claimable - vesting.claimed_of(track)
    } else {
        0
    }
}

/// Records the allocations. Only the admin may do so; nothing has been claimed yet.
pub fn setup_vesting(
    config: &Config,
    caller: Address,
    ecosystem_amount: u64,
    treasury_amount: u64,
    burn_reserve_amount: u64,
    now: i64,
) -> (r: Result<Vesting, ErrorCode>)
    ensures
        r == if caller@ == config.admin@ {
            Ok::<Vesting, ErrorCode>(
                Vesting {
                    ecosystem_amount,
                    treasury_amount,
                    burn_reserve_amount,
                    ecosystem_claimed: 0,
                    treasury_claimed: 0,
                    last_claim_time: now,
                },
            )
        } else {
            Err::<Vesting, ErrorCode>(ErrorCode::Unauthorized)
        },
{
    if caller != config.admin {
        return Err(ErrorCode::Unauthorized);
    }
    Ok(
        Vesting {
            ecosystem_amount,
            treasury_amount,
            burn_reserve_amount,
            ecosystem_claimed: 0,
            treasury_claimed: 0,
            last_claim_time: now,
        },
    )
}

/// Linear release of `amount` over `duration` seconds, `elapsed` seconds in.
pub fn vested_amount(amount: u64, duration: i64, elapsed: i128) -> (r: u64)
    requires
        duration > 0,
        elapsed <= u64::MAX,
    ensures
        r == vested(amount as int, duration as int, elapsed as int),
{
    if elapsed <= 0 {
        return 0;
    }
    proof {
        assert(amount * elapsed <= 0xffff_ffff_ffff_ffff * 0xffff_ffff_ffff_ffff) by (nonlinear_arith)
            requires
                0 <= amount <= 0xffff_ffff_ffff_ffff,
                0 < elapsed <= 0xffff_ffff_ffff_ffff,
        ;
    }
    let released: u128 = (amount as u128) * (elapsed as u128) / (duration as u128);
    if released > u64::MAX as u128 {
        u64::MAX
    } else {
        released as u64
    }
}

/// The part of a track released by `elapsed` and not yet claimed; `NoVestedTokens` when none.
fn unclaimed(amount: u64, claimed: u64, duration: i64, elapsed: i128) -> (r: Result<u64, ErrorCode>)
    requires
        duration > 0,
        elapsed <= u64::MAX,
    ensures
        ({
            let claimable = vested(amount as int, duration as int, elapsed as int);
            if claimable > claimed {
                r == Ok::<u64, ErrorCode>((claimable - claimed) as u64)
            } else {
                r == Err::<u64, ErrorCode>(ErrorCode::NoVestedTokens)
            }
        }),
{
    let claimable = vested_amount(amount, duration, elapsed);
    let remaining = claimable.saturating_sub(claimed);
    if remaining == 0 {
        return Err(ErrorCode::NoVestedTokens);
    }
    Ok(remaining)
}

/// Pays out what `vesting_type` has released and not yet paid, from the vesting vault to the
/// recipient under the program's signing capability. Only the admin may claim
/// (`Unauthorized`); `NoVestedTokens` when nothing is due. On failure nothing changes.
pub fn claim_vested_tokens(
    vesting: &mut Vesting,
    config: &Config,
    caller: Address,
    vesting_type: VestingType,
    now: i64,
) -> (r: Result<TokenMove, ErrorCode>)
    requires
        config.wf(),
    ensures
        caller@ != config.admin@ ==> r == Err::<TokenMove, ErrorCode>(ErrorCode::Unauthorized)
            && *final(vesting) == *old(vesting),
        caller@ == config.admin@ && remaining_at(*old(vesting), *config, vesting_type, now) == 0 ==> r
            == Err::<TokenMove, ErrorCode>(ErrorCode::NoVestedTokens) && *final(vesting) == *old(vesting),
        caller@ == config.admin@ && remaining_at(*old(vesting), *config, vesting_type, now) > 0 ==> {
            let remaining = remaining_at(*old(vesting), *config, vesting_type, now);
            &&& r == Ok::<TokenMove, ErrorCode>(
                TokenMove {
                    from: Party::VestingVault,
                    to: Party::Recipient,
                    authority: Authority::Program,
                    amount: remaining as u64,
                },
            )
            &&& *final(vesting) == (Vesting {
                last_claim_time: now,
                ..old(vesting).with_claimed(
                    vesting_type,
                    (old(vesting).claimed_of(vesting_type) + remaining) as u64,
                )
            })
            &&& final(vesting).claimed_of(vesting_type) == claimable_at(
                *old(vesting),
                *config,
                vesting_type,
                now,
            )
        },
        final(vesting).ecosystem_claimed >= old(vesting).ecosystem_claimed,
        final(vesting).treasury_claimed >= old(vesting).treasury_claimed,
        final(vesting).ecosystem_amount == old(vesting).ecosystem_amount,
        final(vesting).treasury_amount == old(vesting).treasury_amount,
        r is Ok ==> r->Ok_0.amount > 0,
{
    if caller != config.admin {
        return Err(ErrorCode::Unauthorized);
    }
    let elapsed: i128 = now as i128 - config.vesting_start_time as i128;
    let (amount, claimed, duration) = match vesting_type {
        VestingType::Ecosystem => (
            vesting.ecosystem_amount,
            vesting.ecosystem_claimed,
            config.ecosystem_vesting_duration,
        ),
        VestingType::Treasury => (
            vesting.treasury_amount,
            vesting.treasury_claimed,
            config.treasury_vesting_duration,
        ),
    };
    let remaining = unclaimed(amount, claimed, duration, elapsed)?;
    match vesting_type {
        VestingType::Ecosystem => vesting.ecosystem_claimed = claimed + remaining,
        VestingType::Treasury => vesting.treasury_claimed = claimed + remaining,
    }
    vesting.last_claim_time = now;
    Ok(TokenMove { from: Party::VestingVault, to: Party::Recipient, authority: Authority::Program, amount: remaining })
}

} // verus!
