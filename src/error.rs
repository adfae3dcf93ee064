use vstd::prelude::*;

verus! {

/// The failures that the engines report on their own account.
///
/// Failures of the store itself are carried in the caller's error type.
#[derive(Debug, PartialEq, Eq)]
pub enum Error {
    /// A repository operation was refused, with the reason.
    Repository { message: String },
    /// The lock around a shared transaction handle could not be taken.
    MutexLockError,
    /// A shared transaction handle was still referenced when it had to be
    /// finalized.
    ResourceState,
    /// A filter with nothing to apply was passed to a bulk delete.
    FilterRejected,
}

} // verus!
