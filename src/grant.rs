use vstd::prelude::*;
use crate::error::VestingError;

verus! {

/// One beneficiary's vesting record.
///
/// `total_tokens` and the schedule are fixed when the grant is made;
/// `claimed_tokens` only grows, and never passes `total_tokens`.
#[derive(Clone, Copy, Debug, PartialEq, Eq, Structural)]
pub struct TokenVestingInfo {
    pub total_tokens: u64,
    pub claimed_tokens: u64,
    pub start_time: i64,
    pub end_time: i64,
    pub cliff_period: i64,
}

impl TokenVestingInfo {
    /// A schedule that a grant may be created with.
    pub open spec fn valid_schedule(start_time: i64, end_time: i64, cliff_period: i64) -> bool {
        start_time < end_time && cliff_period >= 0
    }

    /// The record invariant: a valid schedule, and no more claimed than granted.
    pub open spec fn wf(self) -> bool {
        &&& Self::valid_schedule(self.start_time, self.end_time, self.cliff_period)
        &&& self.claimed_tokens <= self.total_tokens
    }

    /// The instant from which claims are allowed.
    pub open spec fn cliff_time(self) -> int {
        self.start_time + self.cliff_period
    }

    /// The same grant, with `amount` more claimed.
    pub open spec fn with_claimed(self, amount: int) -> TokenVestingInfo {
        TokenVestingInfo { claimed_tokens: (self.claimed_tokens + amount) as u64, ..self }
    }

    /// Everything but the claimed amount is the same in `self` and `other`.
    pub open spec fn same_terms(self, other: TokenVestingInfo) -> bool {
        &&& self.total_tokens == other.total_tokens
        &&& self.start_time == other.start_time
        &&& self.end_time == other.end_time
        &&& self.cliff_period == other.cliff_period
    }

    /// Adds `amount` to the claimed amount, refusing to pass the total.
    pub fn record_claim(&mut self, amount: u64) -> (r: Result<(), VestingError>)
        requires
            amount > 0,
        ensures
            r is Ok <==> old(self).claimed_tokens + amount <= old(self).total_tokens,
            r is Ok ==> *final(self) == old(self).with_claimed(amount as int),
            r is Err ==> r == Err::<(), VestingError>(VestingError::ClaimExceedsTotal)
                && *final(self) == *old(self),
    {
        if self.claimed_tokens > self.total_tokens || amount > self.total_tokens - self.claimed_tokens {
            return Err(VestingError::ClaimExceedsTotal);
        }
        self.claimed_tokens = self.claimed_tokens + amount;
        Ok(())
    }
}

} // verus!
