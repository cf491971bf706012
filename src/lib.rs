//! Linear vesting with a cliff: the grant record, the vesting schedule, and
//! the rules that create, claim against and close a grant.

pub mod claim;
pub mod error;
pub mod grant;
pub mod laws;
pub mod schedule;

pub use claim::{claim_tokens, close_vesting_account, init_token_vesting, plan_claim, settle_claim};
pub use error::VestingError;
pub use grant::TokenVestingInfo;
pub use schedule::{claimable_amount, vested_amount};
