use vstd::prelude::*;
use crate::error::VestingError;
use crate::grant::TokenVestingInfo;
use crate::schedule::{claimable_amount, claimable_spec, lemma_vested_bounded, vested_spec};

verus! {

/// What a claim at `now` pays out, or why it is refused.
pub open spec fn claim_outcome(g: TokenVestingInfo, now: int) -> Result<u64, VestingError> {
    if now < g.cliff_time() {
        Err(VestingError::CliffPeriodNotReached)
    } else if claimable_spec(g, now) == 0 {
        Err(VestingError::NoTokensToClaim)
    } else {
        Ok(claimable_spec(g, now) as u64)
    }
}

/// Makes a new grant of `tokens_to_vest`, nothing claimed yet.
pub fn init_token_vesting(tokens_to_vest: u64, vest_start_time: i64, vest_end_time: i64, vest_cliff_period: i64) -> (r: Result<TokenVestingInfo, VestingError>)
    ensures
        TokenVestingInfo::valid_schedule(vest_start_time, vest_end_time, vest_cliff_period) <==> r is Ok,
        r is Err ==> r == Err::<TokenVestingInfo, VestingError>(VestingError::InvalidSchedule),
        r matches Ok(g) ==> g.wf() && g == (TokenVestingInfo {
            total_tokens: tokens_to_vest,
            claimed_tokens: 0,
            start_time: vest_start_time,
            end_time: vest_end_time,
            cliff_period: vest_cliff_period,
        }),
{
    if vest_end_time <= vest_start_time || vest_cliff_period < 0 {
        return Err(VestingError::InvalidSchedule);
    }
    Ok(TokenVestingInfo {
        total_tokens: tokens_to_vest,
        claimed_tokens: 0,
        start_time: vest_start_time,
        end_time: vest_end_time,
        cliff_period: vest_cliff_period,
    })
}

/// Decides a claim at `now` without touching the grant: the amount to pay
/// out, or why nothing may be paid.
pub fn plan_claim(vesting: &TokenVestingInfo, now: i64) -> (r: Result<u64, VestingError>)
    ensures
        r == claim_outcome(*vesting, now as int),
{
    if (now as i128) < vesting.start_time as i128 + vesting.cliff_period as i128 {
        return Err(VestingError::CliffPeriodNotReached);
    }
    let claimable = claimable_amount(vesting, now);
    if claimable == 0 {
        return Err(VestingError::NoTokensToClaim);
    }
    Ok(claimable)
}

/// Claims at `now` everything vested and not yet claimed, and records it in
/// the grant. Returns the amount that is to be paid out.
pub fn claim_tokens(vesting: &mut TokenVestingInfo, now: i64) -> (r: Result<u64, VestingError>)
    ensures
        r == claim_outcome(*old(vesting), now as int),
        r matches Ok(a) ==> *final(vesting) == old(vesting).with_claimed(a as int),
        r is Err ==> *final(vesting) == *old(vesting),
        old(vesting).wf() ==> final(vesting).wf(),
{
    let amount = plan_claim(vesting, now);
    match amount {
        Ok(a) => {
            proof {
                lemma_vested_bounded(*vesting, now as int);
            }
            let recorded = vesting.record_claim(a);
            match recorded {
                Ok(()) => Ok(a),
                Err(e) => Err(e),
            }
        },
        Err(e) => Err(e),
    }
}

/// Commits a planned claim of `amount` once the payout is known: the
/// grant records it only if the transfer went through.
pub fn settle_claim(vesting: &mut TokenVestingInfo, amount: u64, transfer_committed: bool) -> (r: Result<(), VestingError>)
    requires
        amount > 0,
    ensures
        !transfer_committed ==> r == Err::<(), VestingError>(VestingError::TransferFailed)
            && *final(vesting) == *old(vesting),
        transfer_committed ==> (r is Ok <==> old(vesting).claimed_tokens + amount <= old(vesting).total_tokens),
        transfer_committed && r is Ok ==> *final(vesting) == old(vesting).with_claimed(amount as int),
        transfer_committed && r is Err ==> r == Err::<(), VestingError>(VestingError::ClaimExceedsTotal)
            && *final(vesting) == *old(vesting),
{
    if !transfer_committed {
        return Err(VestingError::TransferFailed);
    }
    vesting.record_claim(amount)
}

/// Closes a grant whose custody account holds `custody_balance`. Closing is
/// allowed at any point of the schedule: the whole balance, vested or not,
/// goes back to the grantor, and that amount is returned.
pub fn close_vesting_account(_vesting: TokenVestingInfo, custody_balance: u64) -> (r: u64)
    ensures
        r == custody_balance,
{
    custody_balance
}

} // verus!
