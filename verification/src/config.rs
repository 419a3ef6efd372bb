//! Configuration: the recognized options with their defaults, and the table
//! of named tasks. A configuration value is loaded once per invocation and
//! passed explicitly to the components that need it; the library never reads
//! ambient state.

use vstd::prelude::*;

verus! {

/// A named task: one shell command string.
#[derive(Debug, Clone)]
pub struct TaskConfig {
    pub run: String,
}

/// The base options: the prepare task name (empty when none is configured),
/// the pull mode applied on checkout, the base directory that every managed
/// worktree lives under, and whether absent worktrees are checked out
/// automatically on access.
#[derive(Debug, Clone)]
pub struct BaseConfig {
    pub prepare_task: String,
    pub auto_pull: String,
    pub worktree_dir: String,
    pub auto_checkout: bool,
}

/// The whole configuration: base options and the task table, kept as a list
/// of name/task pairs looked up by first match.
#[derive(Debug, Clone)]
pub struct Config {
    pub base: BaseConfig,
    pub tasks: Vec<(String, TaskConfig)>,
}

/// The pull mode applied when none is configured.
pub fn default_auto_pull() -> (r: String)
    ensures
        r@ == "default"@,
{
    String::from_str("default")
}

/// The base directory for managed worktrees when none is configured.
pub fn default_worktree_dir() -> (r: String)
    ensures
        r@ == ".worktree"@,
{
    String::from_str(".worktree")
}

/// Whether absent worktrees are checked out automatically by default.
pub fn default_auto_checkout() -> (r: bool)
    ensures
        r == true,
{
    true
}

impl Default for BaseConfig {
    /// The options an absent configuration file stands for.
    fn default() -> (r: BaseConfig)
        ensures
            r.prepare_task@ == Seq::<char>::empty(),
            r.auto_pull@ == "default"@,
            r.worktree_dir@ == ".worktree"@,
            r.auto_checkout == true,
    {
        BaseConfig {
            prepare_task: String::new(),
            auto_pull: default_auto_pull(),
            worktree_dir: default_worktree_dir(),
            auto_checkout: default_auto_checkout(),
        }
    }
}

/// The task stored under `name`, by first match in the table.
pub open spec fn spec_task_lookup(tasks: Seq<(String, TaskConfig)>, name: Seq<char>) -> Option<
    TaskConfig,
>
    decreases tasks.len(),
{
    if tasks.len() == 0 {
        None
    } else if tasks[0].0@ == name {
        Some(tasks[0].1)
    } else {
        spec_task_lookup(tasks.drop_first(), name)
    }
}

impl Config {
    /// Looks `name` up in the task table.
    pub fn get_task(&self, name: &str) -> (r: Option<&TaskConfig>)
        ensures
            r is Some <==> spec_task_lookup(self.tasks@, name@) is Some,
            r matches Some(t) ==> spec_task_lookup(self.tasks@, name@) == Some(*t),
    {
        let n = self.tasks.len();
        proof {
            assert(self.tasks@.skip(0) =~= self.tasks@);
        }
        let mut i: usize = 0;
        while i < n
            invariant
                n == self.tasks@.len(),
                i <= n,
                spec_task_lookup(self.tasks@, name@) == spec_task_lookup(
                    self.tasks@.skip(i as int),
                    name@,
                ),
            decreases n - i,
        {
            proof {
                assert(self.tasks@.skip(i as int).drop_first() =~= self.tasks@.skip(i + 1));
                assert(self.tasks@.skip(i as int)[0] == self.tasks@[i as int]);
            }
            if crate::strutil::str_eq(self.tasks[i].0.as_str(), name) {
                return Some(&self.tasks[i].1);
            }
            i += 1;
        }
        proof {
            assert(self.tasks@.skip(n as int) =~= Seq::<(String, TaskConfig)>::empty());
        }
        None
    }
}

} // verus!
