use vstd::prelude::*;

verus! {

/// Every way a call through the facade can fail.
///
/// Each variant is tied by the contracts in this crate to exactly one stage
/// of a call: no error is swallowed, and no stage panics the caller.
#[derive(Clone, Copy, Debug, PartialEq, Eq, Structural)]
pub enum CallError {
    /// No resource is currently free.  Recoverable: the caller may retry
    /// once a lease has been returned, though a pool built with zero
    /// resources never frees one.
    PoolExhausted,
    /// The structured request could not be compiled into an opaque query.
    /// Not retryable without changing the request.
    QueryCompileError,
    /// The isolated execution context rejected or failed to run the
    /// blocking stage.  Retryable.
    BlockingStageError,
    /// The resource's own blocking operation failed.
    UnderlyingResourceError,
}

} // verus!
