//! The lifecycle orchestration decisions: mapping a target to its worktree
//! path, telling pull-request targets from branch targets, the checkout
//! plan with its idempotence, the auto-checkout gate on access, removal of
//! a single target, and an ad-hoc command run in a worktree.
//!
//! The registry of worktrees is modelled as the sequence of paths the live
//! listing reports; each decision is related to that model, and the laws at
//! the end state what a checkout or a removal does to it.

use vstd::prelude::*;
use crate::error::Error;
use crate::strutil::{
    join_with_spaces, parse_u64, spec_digits_value, spec_join_with_spaces, spec_numeral_body,
    spec_parses_as_u64, str_eq,
};
use crate::git::spec_joined_path;

verus! {

/// Builds the worktree path for `target`: `<worktree_dir>/<target>`,
/// relative to the repository root.
pub fn worktree_path(worktree_dir: &str, target: &str) -> (p: String)
    ensures
        p@ == spec_joined_path(worktree_dir@, target@),
{
    let p = String::from_str(worktree_dir).concat("/").concat(target);
    proof {
        reveal_strlit("/");
        assert("/"@ =~= seq!['/']);
        assert(p@ =~= spec_joined_path(worktree_dir@, target@));
    }
    p
}

/// Builds the absolute worktree path for `target`:
/// `<repo_root>/<worktree_dir>/<target>`.
pub fn absolute_worktree_path(repo_root: &str, worktree_dir: &str, target: &str) -> (p: String)
    ensures
        p@ == spec_joined_path(repo_root@, spec_joined_path(worktree_dir@, target@)),
{
    let rel = worktree_path(worktree_dir, target);
    let p = String::from_str(repo_root).concat("/").concat(rel.as_str());
    proof {
        reveal_strlit("/");
        assert("/"@ =~= seq!['/']);
        assert(p@ =~= spec_joined_path(repo_root@, spec_joined_path(worktree_dir@, target@)));
    }
    p
}

/// What a target identifier stands for.
#[derive(Debug, Clone, Copy, PartialEq, Eq, Structural)]
pub enum TargetKind {
    /// A numeral: a pull-request number, to be resolved to a branch by the
    /// host.
    PullRequest(u64),
    /// Anything else: the target is itself the branch name.
    BranchName,
}

/// Reads a target identifier: a numeral is a pull-request number, anything
/// else names the branch directly.
pub fn classify_target(target: &str) -> (k: TargetKind)
    ensures
        spec_parses_as_u64(target@) ==> k == TargetKind::PullRequest(
            spec_digits_value(spec_numeral_body(target@)) as u64,
        ),
        !spec_parses_as_u64(target@) ==> k == TargetKind::BranchName,
{
    match parse_u64(target) {
        Some(n) => TargetKind::PullRequest(n),
        None => TargetKind::BranchName,
    }
}

/// What a checkout of a target amounts to.
#[derive(Debug, Clone, PartialEq, Eq)]
pub enum CheckoutPlan {
    /// The worktree already exists: report success, create nothing, sync
    /// nothing.
    AlreadyPresent,
    /// Create the worktree checked out to `branch`, then sync it unless the
    /// pull mode asks for no sync.
    Create { branch: String, sync: bool },
}

/// What the checkout decision promises: an existing worktree is reused
/// untouched; an absent one is created for the resolved branch and synced
/// exactly when the pull mode is not `off`.
pub open spec fn spec_checkout_plan_post(
    p: CheckoutPlan,
    exists_now: bool,
    branch: Seq<char>,
    auto_pull: Seq<char>,
) -> bool {
    &&& exists_now ==> p == CheckoutPlan::AlreadyPresent
    &&& !exists_now ==> (p matches CheckoutPlan::Create { branch: b, sync } && b@ == branch && sync
        == (auto_pull != "off"@))
}

/// The checkout decision. `exists_now` is the live existence of the
/// worktree path; `branch` is the branch the target resolved to (the
/// target itself, or the head branch of its pull request). Creation and the
/// sync that may follow are sequential, not transactional: a sync failure
/// after a successful creation leaves the worktree present but unsynced,
/// and a later checkout reports success without re-syncing.
pub fn checkout_plan(exists_now: bool, branch: &str, auto_pull: &str) -> (p: CheckoutPlan)
    ensures
        spec_checkout_plan_post(p, exists_now, branch@, auto_pull@),
{
    if exists_now {
        CheckoutPlan::AlreadyPresent
    } else {
        let sync = !str_eq(auto_pull, "off");
        CheckoutPlan::Create { branch: String::from_str(branch), sync }
    }
}

/// The registry of worktree paths after a checkout plan is carried out:
/// creation registers the path, reuse registers nothing.
pub open spec fn spec_registry_after_checkout(
    reg: Seq<Seq<char>>,
    p: CheckoutPlan,
    path: Seq<char>,
) -> Seq<Seq<char>> {
    match p {
        CheckoutPlan::AlreadyPresent => reg,
        CheckoutPlan::Create { .. } => reg.push(path),
    }
}

/// Law: checking out a target whose worktree does not exist leaves the
/// registry containing its path.
pub proof fn lemma_checkout_establishes_existence(
    reg: Seq<Seq<char>>,
    p: CheckoutPlan,
    path: Seq<char>,
    branch: Seq<char>,
    auto_pull: Seq<char>,
)
    requires
        !reg.contains(path),
        spec_checkout_plan_post(p, reg.contains(path), branch, auto_pull),
    ensures
        spec_registry_after_checkout(reg, p, path).contains(path),
{
    assert(reg.push(path)[reg.len() as int] == path);
}

/// Law: checkout is idempotent. Whatever the first checkout of a target
/// did, a second checkout of the same target finds the worktree present,
/// creates and syncs nothing, and leaves the registry as it was.
pub proof fn lemma_checkout_idempotent(
    reg: Seq<Seq<char>>,
    p1: CheckoutPlan,
    p2: CheckoutPlan,
    path: Seq<char>,
    branch: Seq<char>,
    auto_pull: Seq<char>,
)
    requires
        spec_checkout_plan_post(p1, reg.contains(path), branch, auto_pull),
        spec_checkout_plan_post(
            p2,
            spec_registry_after_checkout(reg, p1, path).contains(path),
            branch,
            auto_pull,
        ),
    ensures
        p2 == CheckoutPlan::AlreadyPresent,
        spec_registry_after_checkout(spec_registry_after_checkout(reg, p1, path), p2, path)
            == spec_registry_after_checkout(reg, p1, path),
{
    if !reg.contains(path) {
        assert(reg.push(path)[reg.len() as int] == path);
        assert(spec_registry_after_checkout(reg, p1, path).contains(path));
    }
}

/// How an operation that needs a worktree proceeds when it is absent.
#[derive(Debug, Clone, Copy, PartialEq, Eq, Structural)]
pub enum AccessAction {
    /// The worktree exists: use it as it stands, with no re-sync.
    UseExisting,
    /// The worktree is absent and auto-checkout is enabled: check it out
    /// first.
    CheckoutFirst,
}

/// How an operation that works inside a worktree proceeds: an existing
/// worktree is used as it stands; an absent one is checked out first when
/// auto-checkout is enabled, and refused otherwise.
pub fn access_gate(exists_now: bool, auto_checkout: bool, path: &str) -> (r: Result<
    AccessAction,
    Error,
>)
    ensures
        exists_now ==> r == Ok::<AccessAction, Error>(AccessAction::UseExisting),
        !exists_now && auto_checkout ==> r == Ok::<AccessAction, Error>(
            AccessAction::CheckoutFirst,
        ),
        !exists_now && !auto_checkout ==> (r matches Err(Error::WorktreeNotFound { path: p })
            && p@ == path@),
{
    if exists_now {
        Ok(AccessAction::UseExisting)
    } else if auto_checkout {
        Ok(AccessAction::CheckoutFirst)
    } else {
        Err(Error::WorktreeNotFound { path: String::from_str(path) })
    }
}

/// The decision behind removing a single target's worktree: a worktree that
/// does not exist is refused, and nothing is touched; an existing one is
/// removed unconditionally — the merge-safety rule is reserved for bulk
/// cleanup.
pub fn remove_target(exists_now: bool, path: &str) -> (r: Result<(), Error>)
    ensures
        exists_now ==> r == Ok::<(), Error>(()),
        !exists_now ==> (r matches Err(Error::WorktreeNotFound { path: p }) && p@ == path@),
{
    if exists_now {
        Ok(())
    } else {
        Err(Error::WorktreeNotFound { path: String::from_str(path) })
    }
}

/// The registry after the removal decision for `path` is carried out: only
/// an accepted removal takes the path out.
pub open spec fn spec_registry_after_remove(
    reg: Seq<Seq<char>>,
    accepted: bool,
    path: Seq<char>,
) -> Seq<Seq<char>> {
    if accepted {
        reg.remove_value(path)
    } else {
        reg
    }
}

/// Law: removing a target whose worktree does not exist mutates nothing:
/// the decision is a refusal and the registry stays as it was.
pub proof fn lemma_remove_missing_target_mutates_nothing(
    reg: Seq<Seq<char>>,
    path: Seq<char>,
    r: Result<(), Error>,
)
    requires
        !reg.contains(path),
        !reg.contains(path) ==> r is Err,
    ensures
        spec_registry_after_remove(reg, r is Ok, path) == reg,
{
}

/// The ad-hoc command form: the given arguments joined into one shell
/// command, run in the target's worktree, bypassing the configured prepare
/// step. An absent worktree is refused — this form never checks out.
pub fn run_direct_command(exists_now: bool, args: &Vec<String>, path: &str) -> (r: Result<
    String,
    Error,
>)
    ensures
        exists_now ==> (r matches Ok(cmd) && cmd@ == spec_join_with_spaces(args.deep_view())),
        !exists_now ==> (r matches Err(Error::WorktreeNotFound { path: p }) && p@ == path@),
{
    if !exists_now {
        return Err(Error::WorktreeNotFound { path: String::from_str(path) });
    }
    Ok(join_with_spaces(args))
}

} // verus!
