use gh_glance::error::Error;
use gh_glance::git::{ancestry_verdict, parse_worktree_list, split_lines, sync_plan, Git, SyncAction};

#[test]
fn porcelain_listing_yields_worktree_paths() {
    let output = "worktree /repo\nHEAD 1234567890abcdef\nbranch refs/heads/main\n\nworktree /repo/.worktree/42\nHEAD fedcba0987654321\nbranch refs/heads/feature-x\n";
    let paths = parse_worktree_list(output);
    assert_eq!(paths, vec!["/repo".to_string(), "/repo/.worktree/42".to_string()]);
}

#[test]
fn porcelain_listing_without_final_newline() {
    let output = "worktree /repo\nbare";
    let paths = parse_worktree_list(output);
    assert_eq!(paths, vec!["/repo".to_string()]);
}

#[test]
fn empty_listing_yields_no_paths() {
    let paths = parse_worktree_list("");
    assert!(paths.is_empty());
}

#[test]
fn listing_ignores_lines_without_the_marker() {
    // The marker must stand at the start of the line, with its space.
    let output = "worktreeX /a\n worktree /b\nHEAD worktree /c\nworktree /d\n";
    let paths = parse_worktree_list(output);
    assert_eq!(paths, vec!["/d".to_string()]);
}

#[test]
fn marker_line_with_empty_path_yields_an_empty_entry() {
    assert_eq!(parse_worktree_list("worktree \n"), vec!["".to_string()]);
}

#[test]
fn split_lines_handles_final_newline() {
    assert_eq!(split_lines("a\nb\n"), vec!["a".to_string(), "b".to_string()]);
    assert_eq!(split_lines("a\nb"), vec!["a".to_string(), "b".to_string()]);
    assert_eq!(split_lines("\n"), vec!["".to_string()]);
    assert!(split_lines("").is_empty());
}

#[test]
fn exists_worktree_compares_against_the_live_listing() {
    let git = Git::new();
    let worktrees = vec!["/repo".to_string(), "/repo/.worktree/42".to_string()];
    assert!(git.exists_worktree(&worktrees, "/repo", ".worktree/42"));
    assert!(!git.exists_worktree(&worktrees, "/repo", ".worktree/43"));
    assert!(!git.exists_worktree(&worktrees, "/elsewhere", ".worktree/42"));
}

#[test]
fn sync_skips_when_nothing_to_sync() {
    // An absent worktree, a missing upstream, or an unresolvable upstream
    // each yield no action — sync is best-effort, never an error here.
    assert_eq!(sync_plan(false, true, true, "feature-x", "default"), Ok(SyncAction::Skip));
    assert_eq!(sync_plan(true, false, true, "feature-x", "default"), Ok(SyncAction::Skip));
    assert_eq!(sync_plan(true, true, false, "feature-x", "default"), Ok(SyncAction::Skip));
    // Even an unrecognized mode is not reached behind the no-op gates.
    assert_eq!(sync_plan(true, false, false, "feature-x", "nonsense"), Ok(SyncAction::Skip));
}

#[test]
fn sync_default_mode_pulls() {
    assert_eq!(sync_plan(true, true, true, "feature-x", "default"), Ok(SyncAction::Pull));
}

#[test]
fn sync_force_mode_fetches_and_resets_to_remote_branch() {
    // Forced sync for a worktree on branch "feature-x": fetch, then reset
    // hard to origin/feature-x, regardless of local modifications.
    let r = sync_plan(true, true, true, "feature-x", "force");
    assert_eq!(
        r,
        Ok(SyncAction::FetchAndReset { remote_ref: "origin/feature-x".to_string() })
    );
}

#[test]
fn sync_off_mode_does_nothing() {
    assert_eq!(sync_plan(true, true, true, "feature-x", "off"), Ok(SyncAction::Skip));
}

#[test]
fn sync_refuses_unrecognized_mode() {
    let r = sync_plan(true, true, true, "feature-x", "sometimes");
    assert_eq!(r, Err(Error::InvalidPullMode { mode: "sometimes".to_string() }));
}

#[test]
fn ancestry_verdict_fails_closed() {
    assert!(ancestry_verdict(true, true));
    assert!(!ancestry_verdict(true, false));
    assert!(!ancestry_verdict(false, true));
    assert!(!ancestry_verdict(false, false));
}
