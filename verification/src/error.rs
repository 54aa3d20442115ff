//! The ways in which an activation can fail.

use vstd::prelude::*;

verus! {

/// Why an activation was aborted.
///
/// None of these is rolled back or retried: state persisted by an earlier
/// activation of the same pipeline stays as it is.
#[derive(Clone, Copy, Debug, PartialEq, Eq, Structural)]
pub enum ContractError {
    /// State was read before initialization wrote it.
    NotInitialized,
    /// A completion carried a tag that no continuation is registered for.
    UnknownCorrelation { tag: u64 },
    /// Compounding was asked for while there was nothing to harvest.
    InsufficientBalance,
    /// A success payload could not be read as the record that was expected.
    DecodeFailure,
    /// The environment reported that a dispatched operation failed.
    ExternalOperationFailed,
}

} // verus!
