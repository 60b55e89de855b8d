//! Submission: the task a command becomes, the tasks a batch manifest
//! becomes, and the progress a batch keeps while it is submitted. Writing
//! the files is the caller's.
use vstd::prelude::*;

use crate::base::models::{BatchProgress, BatchStatus, Task, TaskItem, TaskType};
use crate::interop::clock::{self, Timestamp};
use crate::interop::ids::{fresh_id, nibble_from_low};

verus! {

/// The task submitting `command` creates: a fresh task with the given type,
/// priority and timeout, in `working_dir` when one is given.
pub fn submission_task(
    command: String,
    task_type: TaskType,
    priority: u8,
    timeout: u64,
    working_dir: Option<String>,
) -> (t: Task)
    ensures
        t.command == command,
        t.task_type == task_type,
        t.priority == priority,
        t.timeout == timeout,
        t.working_dir@ == match working_dir {
            Some(w) => w@,
            None => "."@,
        },
        t.retry_count == 3,
        t.env_vars@ == Map::<Seq<char>, Seq<char>>::empty(),
        t.artifacts_expected@.len() == 0,
        t.batch_id is None,
        t.task_name is None,
        t.timestamp.wf(),
        t.wf(),
{
    let task = Task::new(command, task_type).with_priority(priority).with_timeout(timeout);
    match working_dir {
        Some(wd) => task.with_working_dir(wd),
        None => task,
    }
}

/// The task a manifest item becomes in batch `batch_id`: its command, type,
/// timeout, priority, environment and name, in its working directory (`.`
/// when it sets none).
pub fn batch_task(item: &TaskItem, batch_id: u128) -> (t: Task)
    requires
        item.env_vars.wf(),
    ensures
        t.command@ == item.command@,
        t.task_type == item.task_type,
        t.timeout == item.timeout,
        t.priority == item.priority,
        t.working_dir@ == match item.working_dir {
            Some(w) => w@,
            None => "."@,
        },
        t.batch_id == Some(batch_id),
        t.task_name matches Some(n) && n@ == item.task_name@,
        t.env_vars@ == item.env_vars@,
        t.retry_count == 3,
        t.artifacts_expected@.len() == 0,
        t.timestamp.wf(),
        t.wf(),
{
    let wd = match &item.working_dir {
        Some(w) => w.clone(),
        None => ".".to_owned(),
    };
    let mut task = Task::new(item.command.clone(), item.task_type).with_timeout(
        item.timeout,
    ).with_priority(item.priority).with_working_dir(wd).with_batch_id(batch_id).with_task_name(
        item.task_name.clone(),
    );
    task.env_vars = item.env_vars.copy();
    task
}

/// The progress of a batch of `total_tasks` tasks about to be submitted.
pub fn start_batch_progress(batch_id: u128, manifest_path: String, total_tasks: usize, now: Timestamp) -> (p:
    BatchProgress)
    ensures
        p.batch_id == batch_id,
        p.manifest_path == manifest_path,
        p.total_tasks == total_tasks,
        p.current_index == 0,
        p.submitted_tasks@.len() == 0,
        p.completed_tasks@.len() == 0,
        p.status == BatchStatus::Submitting,
        p.created_at == now,
        p.updated_at == now,
{
    BatchProgress {
        batch_id,
        manifest_path,
        total_tasks,
        current_index: 0,
        submitted_tasks: Vec::new(),
        completed_tasks: Vec::new(),
        status: BatchStatus::Submitting,
        created_at: now,
        updated_at: now,
    }
}

/// The progress of a new batch of `total_tasks` tasks about to be
/// submitted: a fresh batch id, created now.
pub fn new_batch_progress(manifest_path: String, total_tasks: usize) -> (p: BatchProgress)
    ensures
        nibble_from_low(p.batch_id as nat, 19) == 4,
        p.manifest_path == manifest_path,
        p.total_tasks == total_tasks,
        p.current_index == 0,
        p.submitted_tasks@.len() == 0,
        p.completed_tasks@.len() == 0,
        p.status == BatchStatus::Submitting,
        p.created_at == p.updated_at,
        p.created_at.wf(),
{
    start_batch_progress(fresh_id(), manifest_path, total_tasks, clock::now())
}

/// Records that item `index` was submitted as `task_id` under `name` at `now`.
pub fn record_submission(progress: &mut BatchProgress, index: usize, task_id: u128, name: String, now: Timestamp)
    requires
        index < usize::MAX,
    ensures
        final(progress).submitted_tasks@ == old(progress).submitted_tasks@.push((index, task_id, name)),
        final(progress).current_index == index + 1,
        final(progress).updated_at == now,
        final(progress).completed_tasks == old(progress).completed_tasks,
        final(progress).status == old(progress).status,
        final(progress).total_tasks == old(progress).total_tasks,
        final(progress).batch_id == old(progress).batch_id,
        final(progress).created_at == old(progress).created_at,
{
    progress.submitted_tasks.push((index, task_id, name));
    progress.current_index = index + 1;
    progress.updated_at = now;
}

/// Marks a batch whose tasks are all submitted as running.
pub fn mark_batch_running(progress: &mut BatchProgress, now: Timestamp)
    ensures
        final(progress).status == BatchStatus::Running,
        final(progress).updated_at == now,
        final(progress).submitted_tasks == old(progress).submitted_tasks,
        final(progress).completed_tasks == old(progress).completed_tasks,
        final(progress).current_index == old(progress).current_index,
        final(progress).total_tasks == old(progress).total_tasks,
        final(progress).batch_id == old(progress).batch_id,
        final(progress).created_at == old(progress).created_at,
{
    progress.status = BatchStatus::Running;
    progress.updated_at = now;
}

} // verus!
