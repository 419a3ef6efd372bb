use gh_glance::clean::{
    clean_candidates, clean_decision, confirmation_accepted, eligible_for_removal, is_under_base,
    removal_proposal, WorktreeStatus,
};

fn status(path: &str, merged: bool, fast_forward: bool) -> WorktreeStatus {
    WorktreeStatus { path: path.to_string(), merged, fast_forward }
}

#[test]
fn paths_under_the_base_directory() {
    assert!(is_under_base(".worktree", ".worktree"));
    assert!(is_under_base(".worktree/42", ".worktree"));
    assert!(is_under_base(".worktree/a/b", ".worktree"));
    assert!(!is_under_base(".worktreeX/42", ".worktree"));
    assert!(!is_under_base("other/42", ".worktree"));
    assert!(!is_under_base(".worktre", ".worktree"));
}

#[test]
fn cleanup_only_examines_worktrees_under_the_base() {
    let worktrees = vec![
        "/repo".to_string(),
        ".worktree/42".to_string(),
        "elsewhere/43".to_string(),
        ".worktree/feature-x".to_string(),
    ];
    let candidates = clean_candidates(&worktrees, ".worktree");
    assert_eq!(
        candidates,
        vec![".worktree/42".to_string(), ".worktree/feature-x".to_string()]
    );
}

#[test]
fn a_merged_worktree_outside_the_base_is_never_proposed() {
    // Even a merged, fast-forwardable worktree is out of reach when its path
    // is not under the base directory: the candidate filter drops it before
    // any merge state is examined.
    let worktrees = vec!["elsewhere/42".to_string()];
    let candidates = clean_candidates(&worktrees, ".worktree");
    assert!(candidates.is_empty());
}

#[test]
fn eligibility_needs_merged_and_fast_forward() {
    assert!(eligible_for_removal(true, true));
    assert!(!eligible_for_removal(true, false));
    assert!(!eligible_for_removal(false, true));
    assert!(!eligible_for_removal(false, false));
}

#[test]
fn proposal_keeps_exactly_the_merged_and_fast_forwardable() {
    let statuses = vec![
        status(".worktree/1", true, true),
        status(".worktree/2", true, false),
        status(".worktree/3", false, true),
        status(".worktree/4", false, false),
        status(".worktree/5", true, true),
    ];
    let proposal = removal_proposal(&statuses);
    assert_eq!(proposal, vec![".worktree/1".to_string(), ".worktree/5".to_string()]);
}

#[test]
fn confirmation_accepts_a_lone_y_of_either_case() {
    assert!(confirmation_accepted("y"));
    assert!(confirmation_accepted("y\n"));
    assert!(confirmation_accepted("  Y \n"));
    assert!(!confirmation_accepted("n"));
    assert!(!confirmation_accepted("yes"));
    assert!(!confirmation_accepted(""));
    assert!(!confirmation_accepted("\n"));
}

#[test]
fn declining_the_confirmation_removes_nothing() {
    let proposal = vec![".worktree/1".to_string(), ".worktree/5".to_string()];
    let removed = clean_decision(proposal.clone(), false);
    assert!(removed.is_empty());
    // The listed worktrees are untouched: nothing was handed on for removal.
    let confirmed = clean_decision(proposal.clone(), true);
    assert_eq!(confirmed, proposal);
}
