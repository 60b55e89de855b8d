//! Running a job: the task each job task becomes, what to do after each
//! status query while waiting for it (wait, collect its result, or give up),
//! and what is recorded for it. Submitting, querying and sleeping between
//! queries are the caller's.
use vstd::prelude::*;

use crate::base::error::{error_text, BifrostError};
use crate::base::job::{JobDefinition, JobResult, JobTask, JobTaskResult};
use crate::base::models::{status_text, Task, TaskResult, TaskStatus, TaskType};
use crate::interop::clock;
use crate::interop::durations::{is_shorter, shorter, Span};
use crate::text::{self, cat, decimal_text};

verus! {

/// The seconds a job task may take beyond its own timeout before the
/// launcher stops waiting for it.
pub const GRACE_SECS: u64 = 30;

/// The task a job task becomes: a custom task with the job task's command,
/// priority, timeout, working directory and environment, and no retries.
pub fn job_task_to_task(ti: &JobTask) -> (t: Task)
    requires
        ti.env_vars.wf(),
    ensures
        t.command@ == ti.command@,
        t.task_type == TaskType::Custom,
        t.priority == ti.priority,
        t.timeout == ti.timeout,
        t.retry_count == 0,
        t.working_dir@ == match ti.working_dir {
            Some(w) => w@,
            None => "."@,
        },
        t.env_vars@ == ti.env_vars@,
        t.artifacts_expected@.len() == 0,
        t.metadata@ == Map::<Seq<char>, Seq<char>>::empty(),
        t.batch_id is None,
        t.task_name is None,
        t.timestamp.wf(),
        t.wf(),
{
    let mut task = Task::new(ti.command.clone(), TaskType::Custom).with_priority(
        ti.priority,
    ).with_timeout(ti.timeout).with_retry_count(0);
    if let Some(wd) = &ti.working_dir {
        task = task.with_working_dir(wd.clone());
    }
    task.env_vars = ti.env_vars.copy();
    task
}

/// The position of the job task after `recorded` outcomes among `total`
/// tasks: `recorded` itself while tasks remain.
pub open spec fn next_task_of(total: nat, recorded: nat) -> Option<usize> {
    if recorded < total {
        Some(recorded as usize)
    } else {
        None
    }
}

/// Recording the outcome of the task the launcher named next moves it to
/// the following task: every task of a job runs once, in order, and the job
/// ends after its last.
pub proof fn lemma_job_tasks_run_in_order(total: nat, recorded: nat)
    requires
        next_task_of(total, recorded) is Some,
    ensures
        next_task_of(total, recorded) == Some(recorded as usize),
        recorded + 1 < total ==> next_task_of(total, recorded + 1) == Some((recorded + 1) as usize),
        recorded + 1 == total ==> next_task_of(total, recorded + 1) is None,
{
}

/// The job task to run next: tasks run one at a time in their order, each
/// once its predecessor's outcome is recorded, so the next one is the task
/// after the last recorded; none once every task is recorded.
pub fn next_job_task(job: &JobDefinition, progress: &JobResult) -> (r: Option<usize>)
    ensures
        r == next_task_of(job.tasks@.len(), progress.task_results@.len()),
{
    if progress.task_results.len() < job.tasks.len() {
        Some(progress.task_results.len())
    } else {
        None
    }
}

/// What the launcher does after a status query.
#[derive(Clone, Debug)]
pub enum PollStep {
    /// The task outlived its timeout plus the grace: record it as timed out.
    GiveUp,
    /// The task is pending, running or not yet visible: query again later.
    Wait,
    /// The task ended: fetch and record its result.
    Collect,
    /// The query failed: record the failure with this message.
    Abort(String),
}

/// The wait limit of a job task: its timeout plus the grace.
pub open spec fn wait_limit(timeout: u64) -> Span {
    Span { secs: (timeout + GRACE_SECS) as u64, nanos: 0 }
}

/// What to do after a query that answered `status` when `elapsed` has
/// passed since submission: give up past the wait limit; otherwise wait
/// while the task is pending, running or not found, collect once it ended,
/// and abort on any other error.
pub fn poll_step(elapsed: Span, timeout: u64, status: &Result<TaskStatus, BifrostError>) -> (p: PollStep)
    requires
        timeout + GRACE_SECS <= u64::MAX,
    ensures
        shorter(wait_limit(timeout), elapsed) ==> p is GiveUp,
        !shorter(wait_limit(timeout), elapsed) ==> match status {
            Ok(s) => if *s == TaskStatus::Pending || *s == TaskStatus::Running {
                p is Wait
            } else {
                p is Collect
            },
            Err(BifrostError::TaskNotFound(_)) => p is Wait,
            Err(e) => p matches PollStep::Abort(m) && m@ == "query: "@ + error_text(*e),
        },
{
    if is_shorter(Span::from_secs(timeout + 30), elapsed) {
        return PollStep::GiveUp;
    }
    match status {
        Ok(s) => match s {
            TaskStatus::Pending | TaskStatus::Running => PollStep::Wait,
            _ => PollStep::Collect,
        },
        Err(BifrostError::TaskNotFound(_)) => PollStep::Wait,
        Err(e) => PollStep::Abort(cat("query: ", e.message().as_str())),
    }
}

/// The record of a job task the launcher gave up on after `elapsed`.
pub fn timeout_record(ti: &JobTask, task_id: u128, elapsed: Span) -> (r: JobTaskResult)
    ensures
        r.name == ti.name,
        r.task_id == task_id,
        r.exit_code is None,
        r.status@ == "Timeout"@,
        r.stdout@.len() == 0,
        r.stderr@.len() == 0,
        r.duration_secs == elapsed.secs as i64,
        r.error_message matches Some(m) && m@ == "timeout "@ + decimal_text(ti.timeout as nat)
            + "s"@,
        r.artifacts@.len() == 0,
{
    let mut m = cat("timeout ", text::u64_text(ti.timeout).as_str());
    m.append("s");
    JobTaskResult {
        name: ti.name.clone(),
        task_id,
        exit_code: None,
        status: "Timeout".to_owned(),
        stdout: String::new(),
        stderr: String::new(),
        duration_secs: elapsed.secs as i64,
        error_message: Some(m),
        artifacts: Vec::new(),
    }
}

/// The record of a job task whose status query failed with `message`.
pub fn error_record(ti: &JobTask, task_id: u128, elapsed: Span, message: String) -> (r: JobTaskResult)
    ensures
        r.name == ti.name,
        r.task_id == task_id,
        r.exit_code is None,
        r.status@ == "Error"@,
        r.stdout@.len() == 0,
        r.stderr@.len() == 0,
        r.duration_secs == elapsed.secs as i64,
        r.error_message == Some(message),
        r.artifacts@.len() == 0,
{
    JobTaskResult {
        name: ti.name.clone(),
        task_id,
        exit_code: None,
        status: "Error".to_owned(),
        stdout: String::new(),
        stderr: String::new(),
        duration_secs: elapsed.secs as i64,
        error_message: Some(message),
        artifacts: Vec::new(),
    }
}

/// The record of a job task that ended: from its result when it could be
/// fetched, else `Completed` with the time waited and the job task's
/// artifacts.
pub fn fetched_record(ti: &JobTask, task_id: u128, fetched: Result<TaskResult, BifrostError>, elapsed: Span) -> (r:
    JobTaskResult)
    requires
        fetched matches Ok(res) ==> res.wf(),
    ensures
        r.name == ti.name,
        r.task_id == task_id,
        match fetched {
            Ok(res) => {
                &&& r.exit_code == res.output.exit_code
                &&& r.status@ == status_text(res.status)
                &&& r.stdout == res.output.stdout
                &&& r.stderr == res.output.stderr
                &&& r.duration_secs == clock::elapsed_secs(res.start_time, res.end_time)
                &&& r.error_message == res.error_message
                &&& r.artifacts == res.artifacts
            },
            Err(_) => {
                &&& r.exit_code is None
                &&& r.status@ == "Completed"@
                &&& r.stdout@.len() == 0
                &&& r.stderr@.len() == 0
                &&& r.duration_secs == elapsed.secs as i64
                &&& r.error_message is None
                &&& r.artifacts@ == ti.artifacts@
            },
        },
{
    match fetched {
        Ok(res) => {
            let duration_secs = res.duration_secs();
            let status = res.status.display_text();
            JobTaskResult {
                name: ti.name.clone(),
                task_id,
                exit_code: res.output.exit_code,
                status,
                stdout: res.output.stdout,
                stderr: res.output.stderr,
                duration_secs,
                error_message: res.error_message,
                artifacts: res.artifacts,
            }
        },
        Err(_) => {
            let mut artifacts: Vec<String> = Vec::new();
            let mut i: usize = 0;
            while i < ti.artifacts.len()
                invariant
                    i <= ti.artifacts@.len(),
                    artifacts@ == ti.artifacts@.take(i as int),
                decreases ti.artifacts@.len() - i,
            {
                artifacts.push(ti.artifacts[i].clone());
                i = i + 1;
                proof {
                    assert(artifacts@ =~= ti.artifacts@.take(i as int));
                }
            }
            proof {
                assert(ti.artifacts@.take(ti.artifacts@.len() as int) =~= ti.artifacts@);
            }
            JobTaskResult {
                name: ti.name.clone(),
                task_id,
                exit_code: None,
                status: "Completed".to_owned(),
                stdout: String::new(),
                stderr: String::new(),
                duration_secs: elapsed.secs as i64,
                error_message: None,
                artifacts,
            }
        },
    }
}

} // verus!
