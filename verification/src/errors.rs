use vstd::prelude::*;

verus! {

/// The error kinds of the vesting core.  Every kind is terminal for the
/// current call; nothing is retried internally.  A claim that finds
/// nothing to release is a successful no-op, not an error.
#[derive(Clone, Copy, Debug, PartialEq, Eq, Structural)]
pub enum VestingError {
    /// The asset descriptor is too short to contain the decimals field.
    ScheduleMalformed,
    /// A schedule already exists for the asset.
    DuplicateSchedule,
    /// An allocation record already exists for the (schedule, beneficiary) pair.
    DuplicateEnrollment,
    /// The external transfer collaborator refused or could not complete
    /// the asset movement.
    TransferFailed,
}

} // verus!
