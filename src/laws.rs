use vstd::prelude::*;
use vstd::arithmetic::div_mod::lemma_div_is_ordered;
use crate::claim::claim_outcome;
use crate::error::VestingError;
use crate::grant::TokenVestingInfo;
use crate::schedule::{claimable_spec, lemma_vested_bounded, vested_spec};

verus! {

/// The grant after a claim at `now`, and what that claim paid out (zero
/// when it was refused).
pub open spec fn claim_step(g: TokenVestingInfo, now: int) -> (TokenVestingInfo, nat) {
    match claim_outcome(g, now) {
        Ok(a) => (g.with_claimed(a as int), a as nat),
        Err(_) => (g, 0),
    }
}

/// The grant after claims at each of `times` in turn.
pub open spec fn claims_after(g: TokenVestingInfo, times: Seq<i64>) -> TokenVestingInfo
    decreases times.len(),
{
    if times.len() == 0 {
        g
    } else {
        claim_step(claims_after(g, times.drop_last()), times.last() as int).0
    }
}

/// The sum of what the claims at each of `times` in turn paid out.
pub open spec fn paid_after(g: TokenVestingInfo, times: Seq<i64>) -> nat
    decreases times.len(),
{
    if times.len() == 0 {
        0
    } else {
        paid_after(g, times.drop_last()) + claim_step(claims_after(g, times.drop_last()), times.last() as int).1
    }
}

/// Vesting never goes backwards: a later time has at least as much vested.
pub proof fn lemma_vested_monotone(g: TokenVestingInfo, t1: int, t2: int)
    requires
        t1 < t2,
    ensures
        vested_spec(g, t1) <= vested_spec(g, t2),
{
    lemma_vested_bounded(g, t1);
    let total = g.total_tokens as int;
    let s = g.start_time as int;
    let e = g.end_time as int;
    if t2 < e && s < t1 && s < e {
        assert(total * (t1 - s) <= total * (t2 - s)) by (nonlinear_arith)
            requires total >= 0, t1 < t2;
        lemma_div_is_ordered(total * (t1 - s), total * (t2 - s), e - s);
    }
}

/// From the end of the schedule on, exactly the total has vested.
pub proof fn lemma_fully_vested_from_end(g: TokenVestingInfo, t: int)
    requires
        t >= g.end_time,
    ensures
        vested_spec(g, t) == g.total_tokens,
{
}

/// Before the cliff every claim is refused as too early, however much has vested.
pub proof fn lemma_cliff_gates_claims(g: TokenVestingInfo, t: int)
    requires
        t < g.start_time + g.cliff_period,
    ensures
        claim_outcome(g, t) == Err::<u64, VestingError>(VestingError::CliffPeriodNotReached),
{
}

/// A claim that succeeds drains what was claimable: a second claim at the
/// same instant finds nothing to claim.
pub proof fn lemma_claim_drains(g: TokenVestingInfo, t: int)
    requires
        g.wf(),
        claim_outcome(g, t) is Ok,
    ensures
        claim_outcome(claim_step(g, t).0, t) == Err::<u64, VestingError>(VestingError::NoTokensToClaim),
{
    lemma_vested_bounded(g, t);
    let g2 = claim_step(g, t).0;
    assert(vested_spec(g2, t) == vested_spec(g, t));
    assert(claimable_spec(g2, t) == 0);
}

/// Over any run of claims from a well-formed grant, the claimed amount is
/// the starting claimed amount plus everything paid out, it never exceeds
/// the total, and the terms of the grant stay as they were.
pub proof fn lemma_claims_never_overdraw(g: TokenVestingInfo, times: Seq<i64>)
    requires
        g.wf(),
    ensures
        claims_after(g, times).claimed_tokens == g.claimed_tokens + paid_after(g, times),
        claims_after(g, times).claimed_tokens <= g.total_tokens,
        claims_after(g, times).same_terms(g),
        claims_after(g, times).wf(),
    decreases times.len(),
{
    if times.len() > 0 {
        let prev = claims_after(g, times.drop_last());
        lemma_claims_never_overdraw(g, times.drop_last());
        lemma_vested_bounded(prev, times.last() as int);
    }
}

} // verus!
