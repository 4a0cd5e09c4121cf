use vstd::prelude::*;
use vstd::arithmetic::div_mod::{
    lemma_div_is_ordered, lemma_fundamental_div_mod, lemma_fundamental_div_mod_converse,
};

verus! {

/// Reward accrued by `locked` tokens at `rate` percent per interval over `elapsed` seconds,
/// partial intervals counting pro rata, truncated toward zero:
/// `locked * (rate / 100) * (elapsed / interval)`.
pub open spec fn accrued(locked: int, rate: int, elapsed: int, interval: int) -> int {
    (locked * rate * elapsed) / (100 * interval)
}

/// The largest amount a token account can hold.
pub open spec fn cap_u64(x: int) -> int {
    if x > u64::MAX {
        u64::MAX as int
    } else {
        x
    }
}

/// The reward paid for a position, capped at the largest token amount.
pub open spec fn reward_spec(locked: u64, rate: u8, elapsed: u64, interval: u32) -> int {
    cap_u64(accrued(locked as int, rate as int, elapsed as int, interval as int))
}

proof fn lemma_split_quotient(a: int, e: int, d: int)
    requires
        a >= 0,
        e >= 0,
        d > 0,
    ensures
        (a * e) / d == a * (e / d) + (a * (e % d)) / d,
{
    let q = e / d;
    let r = e % d;
    lemma_fundamental_div_mod(e, d);
    let p = (a * r) / d;
    let s = (a * r) % d;
    lemma_fundamental_div_mod(a * r, d);
    assert(a * e == a * q * d + a * r) by (nonlinear_arith)
        requires
            e == d * q + r,
    ;
    assert(a * e == (a * q + p) * d + s) by (nonlinear_arith)
        requires
            a * e == a * q * d + a * r,
            a * r == d * p + s,
    ;
    lemma_fundamental_div_mod_converse(a * e, d, a * q + p, s);
}

/// Reward for `locked_tokens` at `daily_reward` percent per `reward_interval` seconds after
/// `elapsed` seconds. Computed in integers: no rounding but the final truncation.
pub fn calculate_reward(locked_tokens: u64, daily_reward: u8, elapsed: u64, reward_interval: u32) -> (r: u64)
    requires
        reward_interval > 0,
    ensures
        r == reward_spec(locked_tokens, daily_reward, elapsed, reward_interval),
{
    proof {
        assert((locked_tokens as int) * (daily_reward as int) <= 0xffff_ffff_ffff_ffff * 0xff)
            by (nonlinear_arith)
            requires
                locked_tokens <= 0xffff_ffff_ffff_ffff,
                daily_reward <= 0xff,
        ;
    }
    let a: u128 = (locked_tokens as u128) * (daily_reward as u128);
    let d: u128 = 100 * (reward_interval as u128);
    let e: u128 = elapsed as u128;
    let q: u128 = e / d;
    let rem: u128 = e % d;
    proof {
        lemma_split_quotient(a as int, e as int, d as int);
        assert(a * e == locked_tokens * daily_reward * elapsed) by (nonlinear_arith)
            requires
                a == locked_tokens * daily_reward,
                e == elapsed,
        ;
        assert(0 <= a * rem <= a * d) by (nonlinear_arith)
            requires
                0 <= rem < d,
                a >= 0,
        ;
        assert(a * d <= 0xffff_ffff_ffff_ffff_ffff_ffff_ffff_ffff) by (nonlinear_arith)
            requires
                a <= 0xffff_ffff_ffff_ffff * 0xff,
                d <= 100 * 0xffff_ffff,
        ;
        assert(0 <= a * (rem as int) / (d as int));
    }
    if q != 0 && a > (u64::MAX as u128) / q {
        proof {
            lemma_fundamental_div_mod(u64::MAX as int, q as int);
            assert(a * q > u64::MAX) by (nonlinear_arith)
                requires
                    q > 0,
                    a >= (u64::MAX as int) / (q as int) + 1,
                    u64::MAX as int == q * ((u64::MAX as int) / (q as int)) + (u64::MAX as int) % (q as int),
                    (u64::MAX as int) % (q as int) < q,
            {
            }
        }
        return u64::MAX;
    }
    proof {
        if q != 0 {
            lemma_fundamental_div_mod(u64::MAX as int, q as int);
            assert(a * q <= u64::MAX) by (nonlinear_arith)
                requires
                    q > 0,
                    a <= (u64::MAX as int) / (q as int),
                    u64::MAX as int == q * ((u64::MAX as int) / (q as int)) + (u64::MAX as int) % (q as int),
                    (u64::MAX as int) % (q as int) >= 0,
            {
            }
        }
    }
    let whole: u128 = a * q;
    let part: u128 = (a * rem) / d;
    proof {
        lemma_div_is_ordered(a * rem, a * d, d as int);
        vstd::arithmetic::div_mod::lemma_div_by_multiple(a as int, d as int);
        assert(part <= a);
    }
    let total: u128 = whole + part;
    if total > u64::MAX as u128 {
        u64::MAX
    } else {
        total as u64
    }
}

/// The reward never decreases when more tokens are locked, all else equal.
pub proof fn lemma_reward_monotone_in_locked(
    locked1: u64,
    locked2: u64,
    rate: u8,
    elapsed: u64,
    interval: u32,
)
    requires
        locked1 <= locked2,
        interval > 0,
    ensures
        reward_spec(locked1, rate, elapsed, interval) <= reward_spec(locked2, rate, elapsed, interval),
{
    assert(locked1 * rate * elapsed <= locked2 * rate * elapsed) by (nonlinear_arith)
        requires
            0 <= locked1 <= locked2,
            rate >= 0,
            elapsed >= 0,
    ;
    lemma_div_is_ordered(locked1 * rate * elapsed, locked2 * rate * elapsed, 100 * interval);
}

/// The reward never decreases as time passes, all else equal.
pub proof fn lemma_reward_monotone_in_elapsed(
    locked: u64,
    rate: u8,
    elapsed1: u64,
    elapsed2: u64,
    interval: u32,
)
    requires
        elapsed1 <= elapsed2,
        interval > 0,
    ensures
        reward_spec(locked, rate, elapsed1, interval) <= reward_spec(locked, rate, elapsed2, interval),
{
    assert(locked * rate * elapsed1 <= locked * rate * elapsed2) by (nonlinear_arith)
        requires
            locked >= 0,
            rate >= 0,
            0 <= elapsed1 <= elapsed2,
    ;
    lemma_div_is_ordered(locked * rate * elapsed1, locked * rate * elapsed2, 100 * interval);
}

/// The reward never decreases with a higher rate, all else equal.
pub proof fn lemma_reward_monotone_in_rate(locked: u64, rate1: u8, rate2: u8, elapsed: u64, interval: u32)
    requires
        rate1 <= rate2,
        interval > 0,
    ensures
        reward_spec(locked, rate1, elapsed, interval) <= reward_spec(locked, rate2, elapsed, interval),
{
    assert(locked * rate1 * elapsed <= locked * rate2 * elapsed) by (nonlinear_arith)
        requires
            locked >= 0,
            0 <= rate1 <= rate2,
            elapsed >= 0,
    ;
    lemma_div_is_ordered(locked * rate1 * elapsed, locked * rate2 * elapsed, 100 * interval);
}

/// The accrued reward is linear in the rate up to the final truncation: the reward at the
/// sum of two rates is the sum of the rewards at each, or one unit more.
pub proof fn lemma_accrued_linear_in_rate(locked: u64, rate1: u8, rate2: u8, elapsed: u64, interval: u32)
    requires
        interval > 0,
    ensures
        ({
            let both = accrued(locked as int, rate1 + rate2, elapsed as int, interval as int);
            let first = accrued(locked as int, rate1 as int, elapsed as int, interval as int);
            let second = accrued(locked as int, rate2 as int, elapsed as int, interval as int);
            both == first + second || both == first + second + 1
        }),
{
    let d: int = 100 * (interval as int);
    let x: int = (locked as int) * (rate1 as int) * (elapsed as int);
    let y: int = (locked as int) * (rate2 as int) * (elapsed as int);
    assert((locked as int) * (rate1 + rate2) * (elapsed as int) == x + y) by (nonlinear_arith)
        requires
            x == (locked as int) * (rate1 as int) * (elapsed as int),
            y == (locked as int) * (rate2 as int) * (elapsed as int),
    ;
    lemma_fundamental_div_mod(x, d);
    lemma_fundamental_div_mod(y, d);
    let rx: int = x % d;
    let ry: int = y % d;
    let carry: int = (rx + ry) / d;
    let rest: int = (rx + ry) % d;
    lemma_fundamental_div_mod(rx + ry, d);
    vstd::arithmetic::div_mod::lemma_mod_pos_bound(x, d);
    vstd::arithmetic::div_mod::lemma_mod_pos_bound(y, d);
    vstd::arithmetic::div_mod::lemma_mod_pos_bound(rx + ry, d);
    assert(0 <= carry <= 1) by (nonlinear_arith)
        requires
            rx + ry == d * carry + rest,
            0 <= rest < d,
            0 <= rx < d,
            0 <= ry < d,
    ;
    assert(x + y == (x / d + y / d + carry) * d + rest) by (nonlinear_arith)
        requires
            x == d * (x / d) + rx,
            y == d * (y / d) + ry,
            rx + ry == d * carry + rest,
    ;
    lemma_fundamental_div_mod_converse(x + y, d, x / d + y / d + carry, rest);
}

/// Multiplying the rate by a whole number `k` multiplies the accrued reward by `k`, up to
/// the single final truncation: `k * accrued(rate) <= accrued(k * rate) < k * (accrued(rate) + 1)`.
pub proof fn lemma_accrued_scales_with_rate(locked: u64, rate: u8, k: nat, elapsed: u64, interval: u32)
    requires
        interval > 0,
        k >= 1,
    ensures
        ({
            let one = accrued(locked as int, rate as int, elapsed as int, interval as int);
            let scaled = accrued(locked as int, k * rate, elapsed as int, interval as int);
            &&& scaled == (k * (locked as int) * (rate as int) * (elapsed as int)) / (100 * (interval as int))
            &&& k * one <= scaled
            &&& scaled < k * (one + 1)
        }),
{
    let d: int = 100 * (interval as int);
    let x: int = (locked as int) * (rate as int) * (elapsed as int);
    let kk: int = k as int;
    assert((locked as int) * (kk * rate) * (elapsed as int) == kk * x) by (nonlinear_arith)
        requires
            x == (locked as int) * (rate as int) * (elapsed as int),
    ;
    assert(kk * (locked as int) * (rate as int) * (elapsed as int) == kk * x) by (nonlinear_arith)
        requires
            x == (locked as int) * (rate as int) * (elapsed as int),
    ;
    assert(x >= 0) by (nonlinear_arith)
        requires
            x == (locked as int) * (rate as int) * (elapsed as int),
            locked >= 0,
            rate >= 0,
            elapsed >= 0,
    ;
    lemma_split_quotient(kk, x, d);
    vstd::arithmetic::div_mod::lemma_mod_pos_bound(x, d);
    let s: int = x % d;
    assert(0 <= kk * s <= kk * (d - 1)) by (nonlinear_arith)
        requires
            0 <= s < d,
            kk >= 1,
    ;
    lemma_div_is_ordered(kk * s, kk * (d - 1), d);
    vstd::arithmetic::div_mod::lemma_div_pos_is_pos(kk * s, d);
    assert(kk * (d - 1) / d < kk) by {
        lemma_fundamental_div_mod(kk * (d - 1), d);
        vstd::arithmetic::div_mod::lemma_mod_pos_bound(kk * (d - 1), d);
        assert(kk * (d - 1) / d < kk) by (nonlinear_arith)
            requires
                kk * (d - 1) == d * (kk * (d - 1) / d) + kk * (d - 1) % d,
                kk * (d - 1) % d >= 0,
                d > 0,
                kk >= 1,
        ;
    }
    assert(kk * (x / d) + kk * s / d < kk * (x / d + 1)) by (nonlinear_arith)
        requires
            kk * s / d < kk,
    ;
}

} // verus!
