use gh_glance::config::{BaseConfig, Config, TaskConfig};
use gh_glance::error::Error;
use gh_glance::github::{pr_merged_verdict, GitHub};
use gh_glance::strutil::{join_with_spaces, parse_u64, str_trim};
use gh_glance::task::TaskRunner;

fn sample_config(prepare_task: &str) -> Config {
    Config {
        base: BaseConfig {
            prepare_task: prepare_task.to_string(),
            auto_pull: "default".to_string(),
            worktree_dir: ".worktree".to_string(),
            auto_checkout: true,
        },
        tasks: vec![
            ("prep".to_string(), TaskConfig { run: "cargo fetch".to_string() }),
            ("build".to_string(), TaskConfig { run: "cargo build".to_string() }),
        ],
    }
}

#[test]
fn get_task_finds_defined_tasks_only() {
    let config = sample_config("");
    assert_eq!(config.get_task("build").map(|t| t.run.as_str()), Some("cargo build"));
    assert_eq!(config.get_task("prep").map(|t| t.run.as_str()), Some("cargo fetch"));
    assert!(config.get_task("deploy").is_none());
    assert!(config.get_task("").is_none());
}

#[test]
fn default_base_config() {
    let base = BaseConfig::default();
    assert_eq!(base.prepare_task, "");
    assert_eq!(base.auto_pull, "default");
    assert_eq!(base.worktree_dir, ".worktree");
    assert!(base.auto_checkout);
}

#[test]
fn prepare_task_runs_before_the_target_task() {
    let runner = TaskRunner::new(sample_config("prep"), ".worktree/42".to_string());
    let plan = runner.run("build").unwrap();
    assert_eq!(plan, vec!["cargo fetch".to_string(), "cargo build".to_string()]);
}

#[test]
fn prepare_task_does_not_precede_itself() {
    let runner = TaskRunner::new(sample_config("prep"), ".worktree/42".to_string());
    let plan = runner.run("prep").unwrap();
    assert_eq!(plan, vec!["cargo fetch".to_string()]);
}

#[test]
fn no_prepare_step_without_a_configured_prepare_task() {
    let runner = TaskRunner::new(sample_config(""), ".worktree/42".to_string());
    let plan = runner.run("build").unwrap();
    assert_eq!(plan, vec!["cargo build".to_string()]);
}

#[test]
fn unknown_task_is_refused() {
    let runner = TaskRunner::new(sample_config("prep"), ".worktree/42".to_string());
    let r = runner.run("deploy");
    assert_eq!(r, Err(Error::UnknownTask { name: "deploy".to_string() }));
}

#[test]
fn pr_number_comes_from_the_last_path_segment() {
    let github = GitHub::new();
    assert_eq!(github.extract_pr_number_from_worktree("/repo/.worktree/42"), Some(42));
    assert_eq!(github.extract_pr_number_from_worktree("42"), Some(42));
    assert_eq!(github.extract_pr_number_from_worktree("/repo/.worktree/feature-x"), None);
    assert_eq!(github.extract_pr_number_from_worktree("/repo/.worktree/42/"), None);
    assert_eq!(github.extract_pr_number_from_worktree(""), None);
}

#[test]
fn merge_verdict_fails_open_to_not_merged() {
    assert!(pr_merged_verdict(true, "MERGED\n"));
    assert!(pr_merged_verdict(true, "  MERGED  "));
    assert!(!pr_merged_verdict(true, "OPEN\n"));
    assert!(!pr_merged_verdict(true, "merged"));
    assert!(!pr_merged_verdict(false, "MERGED"));
}

#[test]
fn numerals_parse_exactly_as_u64() {
    assert_eq!(parse_u64("0"), Some(0));
    assert_eq!(parse_u64("42"), Some(42));
    assert_eq!(parse_u64("+42"), Some(42));
    assert_eq!(parse_u64("18446744073709551615"), Some(u64::MAX));
    assert_eq!(parse_u64("18446744073709551616"), None);
    assert_eq!(parse_u64(""), None);
    assert_eq!(parse_u64("+"), None);
    assert_eq!(parse_u64("4 2"), None);
    assert_eq!(parse_u64("-1"), None);
}

#[test]
fn trimming_strips_surrounding_whitespace() {
    assert_eq!(str_trim("  a b \n"), "a b");
    assert_eq!(str_trim("\t\r\n"), "");
    assert_eq!(str_trim("x"), "x");
}

#[test]
fn joining_arguments_uses_single_spaces() {
    assert_eq!(join_with_spaces(&vec![]), "");
    assert_eq!(join_with_spaces(&vec!["ls".to_string()]), "ls");
    assert_eq!(
        join_with_spaces(&vec!["git".to_string(), "status".to_string()]),
        "git status"
    );
}
