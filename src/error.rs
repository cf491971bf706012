use vstd::prelude::*;

verus! {

/// The ways an operation on a grant can be refused. A refused operation
/// leaves the grant exactly as it was.
#[derive(Clone, Copy, Debug, PartialEq, Eq, Structural)]
pub enum VestingError {
    /// The schedule ends at or before it starts, or the cliff is negative.
    InvalidSchedule,
    /// A claim came before `start_time + cliff_period`.
    CliffPeriodNotReached,
    /// Nothing has vested beyond what was already claimed.
    NoTokensToClaim,
    /// Recording the claim would take the claimed amount past the total.
    ClaimExceedsTotal,
    /// The asset transfer that pays out a claim did not go through.
    TransferFailed,
}

} // verus!
