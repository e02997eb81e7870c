//! The steps of the transaction that commits a batch: what to do next, given
//! what the store answered. Whoever holds the store runs the loop; the
//! decisions are made here.

use vstd::prelude::*;
use crate::error::ErrorKind;

verus! {

/// What the store answered to the last action.
#[derive(Clone, Copy, Debug, PartialEq, Eq, Structural)]
pub enum CommitEvent {
    /// The insert statement wrote this many rows.
    Inserted { rows: u64 },
    /// The insert statement met a value that the pool holds already.
    UniqueViolation,
    /// The insert statement ran out of identifiers.
    IdentifiersExhausted,
    /// The conditional update of the version changed this many rows.
    Updated { rows: u64 },
}

/// What the holder of the store does next.
#[derive(Clone, Copy, Debug, PartialEq, Eq, Structural)]
pub enum CommitAction {
    /// Insert the batch's rows with one statement.
    InsertRows { rows: usize },
    /// Set the version of pool `id` to `next` where it is `expected`.
    RaiseVersion { next: i32, id: i32, expected: i32 },
    /// Commit: the pool now stands at `version`.
    Commit { version: i32 },
    /// Roll back and fail with `error`.
    Rollback { error: ErrorKind },
}

/// How far a commit has come.
#[derive(Clone, Copy, Debug, PartialEq, Eq, Structural)]
pub enum CommitState {
    /// The rows are to be written.
    Inserting { id: i32, version: i32, rows: usize },
    /// The rows are written; the version is to be raised from `expected` to
    /// `next`.
    Updating { id: i32, expected: i32, next: i32 },
    /// Rows and version are written; the pool stands at `version`.
    Committing { version: i32 },
    /// The commit failed.
    Aborting { error: ErrorKind },
}

impl CommitState {
    /// The state in which the commit of `rows` rows starts, for a writer
    /// that read the pool `id` at `version`.
    pub open spec fn spec_begin(id: i32, version: i32, rows: usize) -> CommitState {
        if rows == 0 {
            CommitState::Aborting { error: ErrorKind::EmptyAllocation }
        } else {
            CommitState::Inserting { id, version, rows }
        }
    }

    /// Starts the commit of `rows` rows: an empty batch is refused before
    /// the store is asked anything.
    #[verifier::when_used_as_spec(spec_begin)]
    pub fn begin(id: i32, version: i32, rows: usize) -> (r: CommitState)
        ensures
            r == Self::spec_begin(id, version, rows),
    {
        if rows == 0 {
            CommitState::Aborting { error: ErrorKind::EmptyAllocation }
        } else {
            CommitState::Inserting { id, version, rows }
        }
    }

    /// The action that the state calls for.
    pub open spec fn spec_action(self) -> CommitAction {
        match self {
            CommitState::Inserting { rows, .. } => CommitAction::InsertRows { rows },
            CommitState::Updating { id, expected, next } => CommitAction::RaiseVersion {
                next,
                id,
                expected,
            },
            CommitState::Committing { version } => CommitAction::Commit { version },
            CommitState::Aborting { error } => CommitAction::Rollback { error },
        }
    }

    /// The action that the state calls for.
    #[verifier::when_used_as_spec(spec_action)]
    pub fn action(self) -> (r: CommitAction)
        ensures
            r == self.spec_action(),
    {
        match self {
            CommitState::Inserting { rows, .. } => CommitAction::InsertRows { rows },
            CommitState::Updating { id, expected, next } => CommitAction::RaiseVersion {
                next,
                id,
                expected,
            },
            CommitState::Committing { version } => CommitAction::Commit { version },
            CommitState::Aborting { error } => CommitAction::Rollback { error },
        }
    }

    /// The state after the store's answer. An insert that wrote all rows
    /// leads on to the update, unless the version cannot grow any more; one
    /// that met a duplicate, or wrote another number of rows, fails. An
    /// update that changed exactly one row leads on to the commit; any other
    /// number means that the pool has moved on. An answer that the state
    /// does not wait for changes nothing.
    pub open spec fn spec_advance(self, event: CommitEvent) -> CommitState {
        match (self, event) {
            (CommitState::Inserting { id, version, rows }, CommitEvent::Inserted { rows: written }) => {
                if written != rows {
                    CommitState::Aborting { error: ErrorKind::DuplicateResource }
                } else if version == i32::MAX {
                    CommitState::Aborting { error: ErrorKind::CapacityExceeded }
                } else {
                    CommitState::Updating { id, expected: version, next: (version + 1) as i32 }
                }
            },
            (CommitState::Inserting { .. }, CommitEvent::UniqueViolation) => CommitState::Aborting {
                error: ErrorKind::DuplicateResource,
            },
            (CommitState::Inserting { .. }, CommitEvent::IdentifiersExhausted) => CommitState::Aborting {
                error: ErrorKind::CapacityExceeded,
            },
            (CommitState::Updating { next, .. }, CommitEvent::Updated { rows: changed }) => {
                if changed == 1 {
                    CommitState::Committing { version: next }
                } else {
                    CommitState::Aborting { error: ErrorKind::VersionConflict }
                }
            },
            _ => self,
        }
    }

    /// The state after the store's answer.
    #[verifier::when_used_as_spec(spec_advance)]
    pub fn advance(self, event: CommitEvent) -> (r: CommitState)
        ensures
            r == self.spec_advance(event),
    {
        match (self, event) {
            (CommitState::Inserting { id, version, rows }, CommitEvent::Inserted { rows: written }) => {
                if written != rows as u64 {
                    CommitState::Aborting { error: ErrorKind::DuplicateResource }
                } else if version == i32::MAX {
                    CommitState::Aborting { error: ErrorKind::CapacityExceeded }
                } else {
                    CommitState::Updating { id, expected: version, next: version + 1 }
                }
            },
            (CommitState::Inserting { .. }, CommitEvent::UniqueViolation) => CommitState::Aborting {
                error: ErrorKind::DuplicateResource,
            },
            (CommitState::Inserting { .. }, CommitEvent::IdentifiersExhausted) => CommitState::Aborting {
                error: ErrorKind::CapacityExceeded,
            },
            (CommitState::Updating { next, .. }, CommitEvent::Updated { rows: changed }) => {
                if changed == 1 {
                    CommitState::Committing { version: next }
                } else {
                    CommitState::Aborting { error: ErrorKind::VersionConflict }
                }
            },
            _ => self,
        }
    }

    /// How many answers the commit can still take.
    pub open spec fn steps_left(self) -> nat {
        match self {
            CommitState::Inserting { .. } => 2,
            CommitState::Updating { .. } => 1,
            _ => 0,
        }
    }
}

} // verus!
