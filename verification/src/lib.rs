//! Worktree lifecycle manager: one isolated checkout per pull request or
//! branch, user-defined tasks run inside it, and a guarded cleanup of
//! checkouts whose branches have been merged.
//!
//! The library holds the decision logic: worktree identity and existence,
//! the pull/sync policy, the merge-and-fast-forward safety rule used before
//! deletion, and the task-execution plan. The surrounding shell performs the
//! version-control and host invocations the decisions call for and feeds
//! their results back in as plain values.

pub mod clean;
pub mod config;
pub mod error;
pub mod git;
pub mod github;
pub mod lifecycle;
pub mod strutil;
pub mod task;
