use vstd::prelude::*;
use vstd::arithmetic::div_mod::lemma_div_is_ordered;
use crate::grant::TokenVestingInfo;

verus! {

/// How much of `total` has vested at `now` on a linear schedule from
/// `start` to `end`: nothing up to `start`, all of it from `end` on, and
/// the floor of the elapsed share in between.
pub open spec fn vested_of(total: nat, start: int, end: int, now: int) -> nat {
    if now >= end {
        total
    } else if now <= start || end <= start {
        0
    } else {
        (total * (now - start) / (end - start)) as nat
    }
}

/// The vested amount of a grant at `now`.
pub open spec fn vested_spec(g: TokenVestingInfo, now: int) -> nat {
    vested_of(g.total_tokens as nat, g.start_time as int, g.end_time as int, now)
}

/// What has vested and not yet been claimed, never below zero.
pub open spec fn claimable_spec(g: TokenVestingInfo, now: int) -> nat {
    if vested_spec(g, now) >= g.claimed_tokens {
        (vested_spec(g, now) - g.claimed_tokens) as nat
    } else {
        0
    }
}

/// Strictly inside the schedule the vested share is at most the total.
pub proof fn lemma_vested_share(total: nat, start: int, end: int, now: int)
    requires
        start < now < end,
    ensures
        total * (now - start) / (end - start) <= total,
{
    let e = now - start;
    let d = end - start;
    assert(total * e <= total * d) by (nonlinear_arith)
        requires e <= d, total >= 0;
    lemma_div_is_ordered(total * e, total * d, d);
    assert(total * d / d == total) by (nonlinear_arith)
        requires d > 0;
}

/// The vested amount lies between zero and the total, at every time.
pub proof fn lemma_vested_bounded(g: TokenVestingInfo, now: int)
    ensures
        0 <= vested_spec(g, now) <= g.total_tokens,
{
    if g.start_time < now < g.end_time {
        lemma_vested_share(g.total_tokens as nat, g.start_time as int, g.end_time as int, now);
    }
}

/// Vested amount of `g` at time `now`.
///
/// The product of total and elapsed time is formed in 128 bits, so it
/// cannot overflow before the division.
pub fn vested_amount(g: &TokenVestingInfo, now: i64) -> (r: u64)
    ensures
        r == vested_spec(*g, now as int),
{
    if now >= g.end_time {
        return g.total_tokens;
    }
    if now <= g.start_time || g.end_time <= g.start_time {
        return 0;
    }
    let elapsed: i128 = now as i128 - g.start_time as i128;
    let duration: i128 = g.end_time as i128 - g.start_time as i128;
    let total: u128 = g.total_tokens as u128;
    proof {
        lemma_vested_share(g.total_tokens as nat, g.start_time as int, g.end_time as int, now as int);
        assert(total * elapsed <= u64::MAX as int * u64::MAX as int) by (nonlinear_arith)
            requires 0 <= total <= u64::MAX as int, 0 < elapsed <= u64::MAX as int;
    }
    let product: u128 = total * (elapsed as u128);
    (product / (duration as u128)) as u64
}

/// Vested and not yet claimed amount of `g` at time `now`.
pub fn claimable_amount(g: &TokenVestingInfo, now: i64) -> (r: u64)
    ensures
        r == claimable_spec(*g, now as int),
{
    vested_amount(g, now).saturating_sub(g.claimed_tokens)
}

} // verus!
