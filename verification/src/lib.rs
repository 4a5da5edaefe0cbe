//! Vesting accounting core for a token-vesting program.
//!
//! A `VestingConfig` describes how one asset class's locked amount unlocks
//! linearly over time; a `UserVesting` record tracks how much of a
//! beneficiary's allocation has already been released.  The scheduler
//! computes time-proportional entitlement, the claim processor turns a
//! claim request into an action for the outer transfer layer and commits
//! the ledger mutation only on a successful transfer, and the authority
//! module derives the custodial signing authority from public inputs.

pub mod authority;
pub mod claim;
pub mod errors;
pub mod ledger;
pub mod scheduler;
pub mod state;
