//! The failures that an allocation can end in.

use vstd::prelude::*;

verus! {

/// Why a store or sandbox operation did not succeed.
#[derive(Clone, Copy, Debug, PartialEq, Eq, Structural)]
pub enum ErrorKind {
    /// A pool or strategy that was looked up does not exist.
    NotFound,
    /// A pool of that name exists already.
    DuplicateName,
    /// A resource of that value exists already in the pool.
    DuplicateResource,
    /// The batch to commit holds no resource.
    EmptyAllocation,
    /// The pool moved on from the version that the writer started from.
    VersionConflict,
    /// The sandbox wrote something other than one JSON array.
    SandboxProtocolViolation,
    /// The sandbox process could not be started, timed out or exited with a failure.
    SandboxExecutionFailed,
    /// An identifier or a version would leave the range of `i32`.
    CapacityExceeded,
}

impl ErrorKind {
    /// Whether a caller may read the pool again and repeat the allocation:
    /// only a lost version race is meant to be retried that way.
    pub open spec fn spec_retry_with_refresh(self) -> bool {
        self == ErrorKind::VersionConflict
    }

    #[verifier::when_used_as_spec(spec_retry_with_refresh)]
    pub fn retry_with_refresh(self) -> (r: bool)
        ensures
            r == self.spec_retry_with_refresh(),
    {
        self == ErrorKind::VersionConflict
    }
}

} // verus!
