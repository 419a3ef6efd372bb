use gh_glance::config::BaseConfig;
use gh_glance::error::Error;
use gh_glance::lifecycle::{
    absolute_worktree_path, access_gate, checkout_plan, classify_target, remove_target,
    run_direct_command, worktree_path, AccessAction, CheckoutPlan, TargetKind,
};

#[test]
fn worktree_path_joins_dir_and_target() {
    assert_eq!(worktree_path(".worktree", "42"), ".worktree/42");
    assert_eq!(worktree_path(".worktree", "feature-x"), ".worktree/feature-x");
}

#[test]
fn absolute_worktree_path_includes_repo_root() {
    assert_eq!(
        absolute_worktree_path("/repo", ".worktree", "42"),
        "/repo/.worktree/42"
    );
}

#[test]
fn numeric_target_is_a_pull_request() {
    assert_eq!(classify_target("42"), TargetKind::PullRequest(42));
    assert_eq!(classify_target("0"), TargetKind::PullRequest(0));
    assert_eq!(classify_target("+7"), TargetKind::PullRequest(7));
    assert_eq!(
        classify_target("18446744073709551615"),
        TargetKind::PullRequest(u64::MAX)
    );
}

#[test]
fn non_numeric_target_is_a_branch_name() {
    assert_eq!(classify_target("feature-x"), TargetKind::BranchName);
    assert_eq!(classify_target(""), TargetKind::BranchName);
    assert_eq!(classify_target("12a"), TargetKind::BranchName);
    assert_eq!(classify_target("18446744073709551616"), TargetKind::BranchName);
}

#[test]
fn checkout_of_absent_worktree_creates_and_syncs() {
    // A target resolving to branch "feature-x" with default config: creation
    // at the worktree path, then a sync, since auto_pull defaults on.
    let base = BaseConfig::default();
    assert_eq!(base.auto_pull, "default");
    assert_eq!(base.worktree_dir, ".worktree");
    assert!(base.auto_checkout);
    let path = worktree_path(&base.worktree_dir, "42");
    assert_eq!(path, ".worktree/42");
    let plan = checkout_plan(false, "feature-x", &base.auto_pull);
    assert_eq!(
        plan,
        CheckoutPlan::Create { branch: "feature-x".to_string(), sync: true }
    );
}

#[test]
fn checkout_of_existing_worktree_reuses_it() {
    let plan = checkout_plan(true, "feature-x", "default");
    assert_eq!(plan, CheckoutPlan::AlreadyPresent);
}

#[test]
fn checkout_with_pull_mode_off_skips_sync() {
    let plan = checkout_plan(false, "feature-x", "off");
    assert_eq!(
        plan,
        CheckoutPlan::Create { branch: "feature-x".to_string(), sync: false }
    );
}

#[test]
fn checkout_twice_is_idempotent() {
    // After the first checkout the worktree exists, so the second call
    // reports success with no creation and no sync.
    let first = checkout_plan(false, "feature-x", "default");
    assert!(matches!(first, CheckoutPlan::Create { .. }));
    let second = checkout_plan(true, "feature-x", "default");
    assert_eq!(second, CheckoutPlan::AlreadyPresent);
}

#[test]
fn access_gate_uses_existing_worktree() {
    assert_eq!(access_gate(true, true, ".worktree/42"), Ok(AccessAction::UseExisting));
    assert_eq!(access_gate(true, false, ".worktree/42"), Ok(AccessAction::UseExisting));
}

#[test]
fn access_gate_auto_checks_out_absent_worktree() {
    assert_eq!(access_gate(false, true, ".worktree/42"), Ok(AccessAction::CheckoutFirst));
}

#[test]
fn access_gate_refuses_absent_worktree_without_auto_checkout() {
    let r = access_gate(false, false, ".worktree/42");
    assert_eq!(
        r,
        Err(Error::WorktreeNotFound { path: ".worktree/42".to_string() })
    );
}

#[test]
fn remove_of_missing_target_fails_with_worktree_not_found() {
    let r = remove_target(false, ".worktree/42");
    assert_eq!(
        r,
        Err(Error::WorktreeNotFound { path: ".worktree/42".to_string() })
    );
}

#[test]
fn remove_of_existing_target_is_accepted() {
    assert_eq!(remove_target(true, ".worktree/42"), Ok(()));
}

#[test]
fn direct_command_joins_arguments() {
    let args = vec!["cargo".to_string(), "test".to_string(), "--all".to_string()];
    let r = run_direct_command(true, &args, ".worktree/42");
    assert_eq!(r, Ok("cargo test --all".to_string()));
}

#[test]
fn direct_command_refuses_absent_worktree() {
    let args = vec!["ls".to_string()];
    let r = run_direct_command(false, &args, ".worktree/42");
    assert_eq!(
        r,
        Err(Error::WorktreeNotFound { path: ".worktree/42".to_string() })
    );
}
