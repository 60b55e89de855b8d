//! Pytest tasks: the command that runs pytest with a JSON report, and the
//! task that carries it.
use vstd::prelude::*;

use crate::base::models::{Task, TaskType};
use crate::text::cat;

verus! {

/// The pytest command line for a test path, writing a JSON report to
/// `report.json`.
pub open spec fn pytest_command_of(test_path: Seq<char>) -> Seq<char> {
    "pytest "@ + test_path + " --json-report --json-report-file=report.json -v"@
}

/// The pytest command line for `test_path`.
pub fn build_pytest_command(test_path: &str) -> (c: String)
    ensures
        c@ == pytest_command_of(test_path@),
{
    let mut c = cat("pytest ", test_path);
    c.append(" --json-report --json-report-file=report.json -v");
    c
}

/// A new pytest task for `test_path`: its command, priority and timeout, the
/// report as expected artifact, and the working directory when one is given.
pub fn create_pytest_task(test_path: &str, priority: u8, timeout: u64, working_dir: Option<String>) -> (t:
    Task)
    ensures
        t.command@ == pytest_command_of(test_path@),
        t.task_type == TaskType::Pytest,
        t.priority == priority,
        t.timeout == timeout,
        t.artifacts_expected@.len() == 1,
        t.artifacts_expected@[0]@ == "report.json"@,
        t.working_dir@ == match working_dir {
            Some(w) => w@,
            None => "."@,
        },
        t.retry_count == 3,
        t.env_vars@ == Map::<Seq<char>, Seq<char>>::empty(),
        t.metadata@ == Map::<Seq<char>, Seq<char>>::empty(),
        t.batch_id is None,
        t.task_name is None,
        t.timestamp.wf(),
        t.wf(),
{
    let command = build_pytest_command(test_path);
    let task = Task::new(command, TaskType::Pytest).with_priority(priority).with_timeout(
        timeout,
    ).with_artifact("report.json".to_owned());
    match working_dir {
        Some(wd) => task.with_working_dir(wd),
        None => task,
    }
}

} // verus!
