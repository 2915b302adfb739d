//! The single error type shared by every fallible operation of the crate.

use vstd::prelude::*;

verus! {

/// Errors reported by the capture layer.
///
/// No numeric error codes are exposed: a failure is either a local misuse of
/// the tagged address union, the transient empty-poll condition, or a failure
/// reported by the capture engine together with the name of the failing
/// operation and the engine's diagnostic text.
#[derive(Debug, Clone, PartialEq, Eq)]
pub enum Error {
    /// A tagged-union extraction was attempted on the wrong address variant.
    InvalidAddress,
    /// The engine reported a transient empty-buffer condition while polling.
    /// The capture iterator retries on this and never surfaces it.
    Timeout,
    /// The capture engine reported a failure.
    PcapError {
        /// Name of the failing engine operation.
        operation: String,
        /// Diagnostic text retrieved from the engine.
        message: String,
    },
    /// The engine's error text could not even be retrieved.
    ErrorTextUnavailable,
}

impl Error {
    /// True for the transient empty-poll condition.
    pub fn is_timeout(&self) -> (r: bool)
        ensures
            r == (self is Timeout),
    {
        matches!(self, Error::Timeout)
    }
}

} // verus!
