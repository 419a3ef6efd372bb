//! Task execution planning. A task is a named shell command from the
//! configuration. Running one may be preceded by a configured prepare task;
//! the library fixes the commands and their order, and the shell executes
//! them one by one, stopping at the first failure.

use vstd::prelude::*;
use crate::config::{Config, TaskConfig, spec_task_lookup};
use crate::error::Error;
use crate::strutil::str_eq;

verus! {

/// Plans task commands inside one working directory.
pub struct TaskRunner {
    pub config: Config,
    pub workdir: String,
}

/// The commands that running task `name` amounts to, in execution order:
/// nothing when the task is unknown; otherwise the configured prepare task's
/// command first — if a prepare task is configured, defined, and is not
/// `name` itself — then the task's own command.
pub open spec fn spec_task_plan(
    tasks: Seq<(String, TaskConfig)>,
    prepare: Seq<char>,
    name: Seq<char>,
) -> Option<Seq<Seq<char>>> {
    match spec_task_lookup(tasks, name) {
        Option::None => Option::None,
        Option::Some(task) => match spec_task_lookup(tasks, prepare) {
            Option::Some(prep) => if name != prepare {
                Option::Some(seq![prep.run@, task.run@])
            } else {
                Option::Some(seq![task.run@])
            },
            Option::None => Option::Some(seq![task.run@]),
        },
    }
}

impl TaskRunner {
    pub fn new(config: Config, workdir: String) -> (r: TaskRunner)
        ensures
            r.config == config,
            r.workdir == workdir,
    {
        TaskRunner { config, workdir }
    }

    /// The execution plan for task `task_name`: the commands to run in the
    /// working directory, in order. An undefined task is refused; a
    /// configured prepare task distinct from the target task contributes its
    /// command first.
    pub fn run(&self, task_name: &str) -> (r: Result<Vec<String>, Error>)
        ensures
            r is Ok <==> spec_task_plan(
                self.config.tasks@,
                self.config.base.prepare_task@,
                task_name@,
            ) is Some,
            r matches Ok(cmds) ==> Some(cmds.deep_view()) == spec_task_plan(
                self.config.tasks@,
                self.config.base.prepare_task@,
                task_name@,
            ),
            r is Err ==> (r matches Err(Error::UnknownTask { name }) && name@ == task_name@),
    {
        let task = match self.config.get_task(task_name) {
            Some(t) => t,
            None => {
                return Err(Error::UnknownTask { name: String::from_str(task_name) });
            },
        };
        let mut cmds: Vec<String> = Vec::new();
        let mut with_prepare: bool = false;
        if !str_eq(task_name, self.config.base.prepare_task.as_str()) {
            match self.config.get_task(self.config.base.prepare_task.as_str()) {
                Some(prepare) => {
                    cmds.push(prepare.run.clone());
                    with_prepare = true;
                    proof {
                        assert(cmds.deep_view() =~= seq![prepare.run@]);
                    }
                },
                None => {},
            }
        }
        let ghost before = cmds.deep_view();
        cmds.push(task.run.clone());
        proof {
            assert(cmds.deep_view() =~= before.push(task.run@));
            if with_prepare {
                assert(cmds.deep_view() =~= spec_task_plan(
                    self.config.tasks@,
                    self.config.base.prepare_task@,
                    task_name@,
                )->Some_0);
            } else {
                assert(cmds.deep_view() =~= seq![task.run@]);
            }
        }
        Ok(cmds)
    }
}

/// The commands actually executed when the commands of `plan` are run in
/// order and execution stops after the first failure; `ok[i]` tells whether
/// command `i` succeeded.
pub open spec fn spec_executed(plan: Seq<Seq<char>>, ok: Seq<bool>) -> Seq<Seq<char>>
    decreases plan.len(),
{
    if plan.len() == 0 || ok.len() == 0 {
        Seq::empty()
    } else if ok[0] {
        seq![plan[0]] + spec_executed(plan.drop_first(), ok.drop_first())
    } else {
        seq![plan[0]]
    }
}

/// Law: with a prepare task configured, defined, and distinct from the
/// target task, the plan places the prepare command first and the target
/// command second; and when the prepare command fails, the target command
/// is never executed — the prepare command is the only one run.
pub proof fn lemma_prepare_failure_blocks_main(
    tasks: Seq<(String, TaskConfig)>,
    prepare: Seq<char>,
    name: Seq<char>,
    plan: Seq<Seq<char>>,
    ok: Seq<bool>,
)
    requires
        name != prepare,
        spec_task_lookup(tasks, prepare) is Some,
        spec_task_lookup(tasks, name) is Some,
        Option::Some(plan) == spec_task_plan(tasks, prepare, name),
        ok.len() == plan.len(),
        !ok[0],
    ensures
        plan.len() == 2,
        plan[0] == spec_task_lookup(tasks, prepare)->Some_0.run@,
        plan[1] == spec_task_lookup(tasks, name)->Some_0.run@,
        spec_executed(plan, ok) =~= seq![plan[0]],
{
}

} // verus!
