//! The failure kinds surfaced by the lifecycle operations. Every operation
//! aborts on the first of these it meets; none is retried. The shell maps
//! failures of external invocations into the matching variant before they
//! reach a caller.

use vstd::prelude::*;

verus! {

/// A failure of a lifecycle operation.
#[derive(Debug, Clone, PartialEq, Eq)]
pub enum Error {
    /// The current directory is not inside a repository.
    NotARepository,
    /// The underlying system refused to create a worktree; carries its
    /// captured standard-error text.
    WorktreeCreationFailed { stderr: String },
    /// No worktree is registered at the given path.
    WorktreeNotFound { path: String },
    /// A sync of a worktree with its upstream failed.
    SyncFailed { detail: String },
    /// The configured pull mode is not one of the recognized ones.
    InvalidPullMode { mode: String },
    /// The host could not resolve a pull-request identifier.
    HostLookupFailed { detail: String },
    /// The named task is not defined in the configuration.
    UnknownTask { name: String },
    /// A task command exited with a non-zero status.
    CommandFailed { exit_code: i32 },
    /// A task command could not be started at all.
    SpawnFailed,
    /// A computed worktree path holds characters the platform cannot encode.
    InvalidPath,
}

} // verus!
