//! Jobs: a named list of tasks run one after another, and the record of
//! how each went.
use vstd::prelude::*;

use crate::base::string_map::StringMap;
use crate::interop::clock::{self, elapsed_secs, Timestamp};
use crate::text::same_text;

verus! {

/// The timeout of a job task that sets none, in seconds.
pub fn default_timeout() -> (t: u64)
    ensures
        t == 300,
{
    300
}

/// A job: a name, a description, and its tasks in order.
#[derive(Clone, Debug)]
pub struct JobDefinition {
    pub name: String,
    pub description: Option<String>,
    pub tasks: Vec<JobTask>,
}

/// One task of a job.
#[derive(Clone, Debug)]
pub struct JobTask {
    pub name: String,
    pub command: String,
    pub timeout: u64,
    pub priority: u8,
    pub working_dir: Option<String>,
    pub env_vars: StringMap,
    pub artifacts: Vec<String>,
    pub ignore_failure: bool,
    pub metadata: StringMap,
}

/// How one task of a job went.
#[derive(Clone, Debug)]
pub struct JobTaskResult {
    pub name: String,
    pub task_id: u128,
    pub exit_code: Option<i32>,
    pub status: String,
    pub stdout: String,
    pub stderr: String,
    pub duration_secs: i64,
    pub error_message: Option<String>,
    pub artifacts: Vec<String>,
}

/// How a job went.
#[derive(Clone, Debug)]
pub struct JobResult {
    pub name: String,
    pub status: String,
    pub task_results: Vec<JobTaskResult>,
    pub total_duration_secs: i64,
    pub launched_at: Timestamp,
    pub total_tasks: usize,
    pub completed_tasks: usize,
    pub failed_tasks: usize,
}

/// The number of task results whose status is `Completed`.
pub open spec fn completed_count(rs: Seq<JobTaskResult>) -> nat
    decreases rs.len(),
{
    if rs.len() == 0 {
        0
    } else {
        completed_count(rs.drop_last()) + if rs.last().status@ == "Completed"@ {
            1nat
        } else {
            0nat
        }
    }
}

proof fn lemma_completed_count_bound(rs: Seq<JobTaskResult>)
    ensures
        completed_count(rs) <= rs.len(),
    decreases rs.len(),
{
    if rs.len() > 0 {
        lemma_completed_count_bound(rs.drop_last());
    }
}

impl JobResult {
    /// The counts agree with the results recorded: the completed ones are
    /// those whose status is `Completed`, the failed ones all others.
    pub open spec fn counts_agree(&self) -> bool {
        &&& self.completed_tasks == completed_count(self.task_results@)
        &&& self.completed_tasks + self.failed_tasks == self.task_results@.len()
    }

    /// The record of a job of `total_tasks` tasks launched at `now`:
    /// running, nothing recorded.
    pub fn new_at(name: String, total_tasks: usize, now: Timestamp) -> (r: JobResult)
        ensures
            r.name == name,
            r.status@ == "Running"@,
            r.task_results@.len() == 0,
            r.total_duration_secs == 0,
            r.launched_at == now,
            r.total_tasks == total_tasks,
            r.completed_tasks == 0,
            r.failed_tasks == 0,
            r.counts_agree(),
    {
        JobResult {
            name,
            status: "Running".to_owned(),
            task_results: Vec::new(),
            total_duration_secs: 0,
            launched_at: now,
            total_tasks,
            completed_tasks: 0,
            failed_tasks: 0,
        }
    }

    /// The record of a job launched now.
    pub fn new(name: String, total_tasks: usize) -> (r: JobResult)
        ensures
            r.name == name,
            r.status@ == "Running"@,
            r.task_results@.len() == 0,
            r.launched_at.wf(),
            r.total_tasks == total_tasks,
            r.completed_tasks == 0,
            r.failed_tasks == 0,
            r.counts_agree(),
    {
        JobResult::new_at(name, total_tasks, clock::now())
    }

    /// Records how a task went: it counts as completed when its status is
    /// `Completed`, as failed otherwise.
    pub fn record_task(&mut self, result: JobTaskResult)
        requires
            old(self).counts_agree(),
            old(self).task_results@.len() < usize::MAX,
        ensures
            final(self).counts_agree(),
            final(self).task_results@ == old(self).task_results@.push(result),
            result.status@ == "Completed"@ ==> final(self).completed_tasks == old(
                self,
            ).completed_tasks + 1 && final(self).failed_tasks == old(self).failed_tasks,
            result.status@ != "Completed"@ ==> final(self).failed_tasks == old(self).failed_tasks
                + 1 && final(self).completed_tasks == old(self).completed_tasks,
            final(self).name == old(self).name,
            final(self).status == old(self).status,
            final(self).launched_at == old(self).launched_at,
            final(self).total_tasks == old(self).total_tasks,
            final(self).total_duration_secs == old(self).total_duration_secs,
    {
        let ghost before = self.task_results@;
        if !same_text(result.status.as_str(), "Completed") {
            self.failed_tasks = self.failed_tasks + 1;
        } else {
            self.completed_tasks = self.completed_tasks + 1;
        }
        self.task_results.push(result);
        proof {
            assert(self.task_results@.drop_last() =~= before);
        }
    }

    /// Closes the record at `now`: the duration since launch in whole
    /// seconds, and the status `Completed` when nothing failed,
    /// `CompletedWithFailures` otherwise.
    pub fn finalize_at(&mut self, now: Timestamp)
        requires
            old(self).launched_at.wf(),
            now.wf(),
        ensures
            final(self).total_duration_secs == elapsed_secs(old(self).launched_at, now),
            final(self).status@ == if old(self).failed_tasks == 0 {
                "Completed"@
            } else {
                "CompletedWithFailures"@
            },
            final(self).task_results == old(self).task_results,
            final(self).completed_tasks == old(self).completed_tasks,
            final(self).failed_tasks == old(self).failed_tasks,
            final(self).name == old(self).name,
            final(self).launched_at == old(self).launched_at,
            final(self).total_tasks == old(self).total_tasks,
    {
        self.total_duration_secs = clock::seconds_between(self.launched_at, now);
        self.status = if self.failed_tasks == 0 {
            "Completed".to_owned()
        } else {
            "CompletedWithFailures".to_owned()
        };
    }

    /// Closes the record now.
    pub fn finalize(&mut self)
        requires
            old(self).launched_at.wf(),
        ensures
            final(self).status@ == if old(self).failed_tasks == 0 {
                "Completed"@
            } else {
                "CompletedWithFailures"@
            },
            final(self).task_results == old(self).task_results,
            final(self).completed_tasks == old(self).completed_tasks,
            final(self).failed_tasks == old(self).failed_tasks,
            final(self).name == old(self).name,
            final(self).launched_at == old(self).launched_at,
            final(self).total_tasks == old(self).total_tasks,
            exists|now: Timestamp|
                now.wf() && final(self).total_duration_secs == #[trigger] elapsed_secs(
                    old(self).launched_at,
                    now,
                ),
    {
        let now = clock::now();
        self.finalize_at(now);
    }
}

} // verus!
