//! Batch progress: where each batch's progress file lives, which batches
//! are still active or old enough to clean up, and how a finished task is
//! recorded in its batch.
use vstd::prelude::*;

use crate::base::models::{BatchProgress, BatchStatus, Task, TaskResult, TaskStatus};
use crate::interop::clock::{self, earlier, secs_bound, Timestamp};
use crate::interop::ids::{id_text, id_to_text};
use crate::paths::{joined, path_join};
use crate::text::cat;

verus! {

/// Seconds in a day.
pub const SECS_PER_DAY: i64 = 86400;

/// Tracks batch progress files under one directory.
#[derive(Clone, Debug)]
pub struct BatchTracker {
    /// Directory where batch progress files are stored
    pub batch_dir: String,
}

impl BatchTracker {
    /// A tracker for the progress files under `batch_dir`.
    pub fn new(batch_dir: String) -> (t: BatchTracker)
        ensures
            t.batch_dir@ == batch_dir@,
    {
        BatchTracker { batch_dir }
    }

    /// The progress file of a batch: `{batch_dir}/{batch_id}.json`.
    pub fn progress_file_path(&self, batch_id: u128) -> (r: String)
        ensures
            r@ == joined(self.batch_dir@, id_text(batch_id) + ".json"@),
    {
        let name = cat(id_to_text(batch_id).as_str(), ".json");
        path_join(self.batch_dir.as_str(), name.as_str())
    }
}

/// Whether a batch in this state still runs (it is neither completed, failed
/// nor cancelled).
pub open spec fn still_active(s: BatchStatus) -> bool {
    s != BatchStatus::Completed && s != BatchStatus::Failed && s != BatchStatus::Cancelled
}

/// Whether the batch is still active.
pub fn is_active_batch(progress: &BatchProgress) -> (b: bool)
    ensures
        b == still_active(progress.status),
{
    progress.status != BatchStatus::Completed && progress.status != BatchStatus::Failed
        && progress.status != BatchStatus::Cancelled
}

/// The instant `older_than_days` days before `now`: batches updated before
/// it are cleaned up.
pub fn cleanup_cutoff(now: Timestamp, older_than_days: i64) -> (c: Timestamp)
    requires
        now.wf(),
        -secs_bound() < now.secs - older_than_days * SECS_PER_DAY < secs_bound(),
    ensures
        c.secs == now.secs - older_than_days * SECS_PER_DAY,
        c.nanos == now.nanos,
        c.wf(),
{
    let secs = (now.secs as i128 - older_than_days as i128 * 86400) as i64;
    Timestamp { secs, nanos: now.nanos }
}

/// Whether a batch last updated at `updated_at` is older than `cutoff`.
pub fn is_expired(updated_at: Timestamp, cutoff: Timestamp) -> (b: bool)
    ensures
        b == earlier(updated_at, cutoff),
{
    clock::is_earlier(updated_at, cutoff)
}

/// Whether every recorded completion is `Completed`.
pub open spec fn all_completed(done: Seq<(u128, TaskStatus, String)>) -> bool {
    forall|i: int| 0 <= i < done.len() ==> (#[trigger] done[i]).1 == TaskStatus::Completed
}

/// A batch closes as `Failed` when any of its recorded completions, the
/// first one included, is not `Completed`.
pub proof fn lemma_any_unfinished_task_fails_the_batch(done: Seq<(u128, TaskStatus, String)>, i: int)
    requires
        0 <= i < done.len(),
        done[i].1 != TaskStatus::Completed,
    ensures
        !all_completed(done),
{
}

/// A batch closes as `Completed` when every recorded completion is
/// `Completed`.
pub proof fn lemma_all_completed_tasks_complete_the_batch(done: Seq<(u128, TaskStatus, String)>)
    requires
        forall|i: int| 0 <= i < done.len() ==> (#[trigger] done[i]).1 == TaskStatus::Completed,
    ensures
        all_completed(done),
{
}

/// The name a task is recorded under in its batch.
pub open spec fn recorded_name(task: Task) -> Seq<char> {
    match task.task_name {
        Some(n) => n@,
        None => "unnamed"@,
    }
}

/// Records that `task` finished with `result` at `now`: the completion is
/// appended, and when it is the batch's last the batch becomes `Completed`
/// if every task completed and `Failed` otherwise.
pub fn record_completion(progress: &mut BatchProgress, task: &Task, result: &TaskResult, now: Timestamp)
    ensures
        final(progress).completed_tasks@.len() == old(progress).completed_tasks@.len() + 1,
        final(progress).completed_tasks@.drop_last() == old(progress).completed_tasks@,
        final(progress).completed_tasks@.last().0 == result.task_id,
        final(progress).completed_tasks@.last().1 == result.status,
        final(progress).completed_tasks@.last().2@ == recorded_name(*task),
        final(progress).updated_at == now,
        final(progress).status == (if final(progress).completed_tasks@.len() == old(
            progress,
        ).total_tasks {
            if all_completed(final(progress).completed_tasks@) {
                BatchStatus::Completed
            } else {
                BatchStatus::Failed
            }
        } else {
            old(progress).status
        }),
        final(progress).completed_tasks@.len() == old(progress).total_tasks ==> ((final(progress).status
            == BatchStatus::Completed) <==> (forall|i: int|
            0 <= i < final(progress).completed_tasks@.len()
                ==> #[trigger] final(progress).completed_tasks@[i].1 == TaskStatus::Completed)),
        final(progress).completed_tasks@.len() == old(progress).total_tasks ==> (final(progress).status
            == BatchStatus::Completed || final(progress).status == BatchStatus::Failed),
        final(progress).batch_id == old(progress).batch_id,
        final(progress).manifest_path == old(progress).manifest_path,
        final(progress).total_tasks == old(progress).total_tasks,
        final(progress).current_index == old(progress).current_index,
        final(progress).submitted_tasks == old(progress).submitted_tasks,
        final(progress).created_at == old(progress).created_at,
{
    let name = match &task.task_name {
        Some(n) => n.clone(),
        None => "unnamed".to_owned(),
    };
    progress.completed_tasks.push((result.task_id, result.status, name));
    progress.updated_at = now;
    if progress.completed_tasks.len() == progress.total_tasks {
        let n = progress.completed_tasks.len();
        let mut all = true;
        let mut i: usize = 0;
        while i < n
            invariant
                n == progress.completed_tasks@.len(),
                i <= n,
                all == forall|j: int|
                    0 <= j < i ==> (#[trigger] progress.completed_tasks@[j]).1
                        == TaskStatus::Completed,
            decreases n - i,
        {
            if progress.completed_tasks[i].1 != TaskStatus::Completed {
                all = false;
            }
            i = i + 1;
        }
        progress.status = if all {
            BatchStatus::Completed
        } else {
            BatchStatus::Failed
        };
    }
}

} // verus!
