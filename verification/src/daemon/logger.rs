//! Where the logs of a task live: `{log_root}/{task_id}/` holds
//! `stdout.log`, `stderr.log` and `metadata.json`.
use vstd::prelude::*;

use crate::interop::clock::{elapsed_secs, seconds_between, Timestamp};
use crate::interop::ids::{id_text, id_to_text};
use crate::paths::{joined, path_join};

verus! {

/// The log directory of a task under `root`.
pub open spec fn task_log_dir_of(root: Seq<char>, task_id: u128) -> Seq<char> {
    joined(root, id_text(task_id))
}

/// Paths of the log files of each task under one root directory.
#[derive(Clone, Debug)]
pub struct LogManager {
    log_root: String,
}

impl LogManager {
    /// The root directory of all task logs.
    pub closed spec fn root(self) -> Seq<char> {
        self.log_root@
    }

    /// A log manager rooted at `log_root` (the directory itself is created
    /// by the caller).
    pub fn new(log_root: String) -> (m: LogManager)
        ensures
            m.root() == log_root@,
    {
        LogManager { log_root }
    }

    /// The root directory of all task logs.
    pub fn log_root(&self) -> (r: &str)
        ensures
            r@ == self.root(),
    {
        self.log_root.as_str()
    }

    /// `{log_root}/{task_id}`.
    pub fn task_log_dir(&self, task_id: u128) -> (r: String)
        ensures
            r@ == task_log_dir_of(self.root(), task_id),
    {
        let id = id_to_text(task_id);
        path_join(self.log_root.as_str(), id.as_str())
    }

    /// The stdout and stderr log files of a task.
    pub fn get_log_paths(&self, task_id: u128) -> (r: (String, String))
        ensures
            r.0@ == joined(task_log_dir_of(self.root(), task_id), "stdout.log"@),
            r.1@ == joined(task_log_dir_of(self.root(), task_id), "stderr.log"@),
    {
        let dir = self.task_log_dir(task_id);
        (path_join(dir.as_str(), "stdout.log"), path_join(dir.as_str(), "stderr.log"))
    }

    /// The metadata file of a task.
    pub fn metadata_path(&self, task_id: u128) -> (r: String)
        ensures
            r@ == joined(task_log_dir_of(self.root(), task_id), "metadata.json"@),
    {
        let dir = self.task_log_dir(task_id);
        path_join(dir.as_str(), "metadata.json")
    }
}


/// What the metadata log of a run records: the task, when the run started
/// and ended, its length in whole seconds, and its exit code (none when it
/// did not exit).
#[derive(Clone, Copy, Debug)]
pub struct RunMetadata {
    pub task_id: u128,
    pub start_time: Timestamp,
    pub end_time: Timestamp,
    pub duration_secs: i64,
    pub exit_code: Option<i32>,
}

/// The metadata of a run of `task_id` from `start` to `end` that exited
/// with `exit_code`.
pub fn run_metadata(task_id: u128, start: Timestamp, end: Timestamp, exit_code: Option<i32>) -> (m: RunMetadata)
    requires
        start.wf(),
        end.wf(),
    ensures
        m.task_id == task_id,
        m.start_time == start,
        m.end_time == end,
        m.duration_secs == elapsed_secs(start, end),
        m.exit_code == exit_code,
{
    RunMetadata { task_id, start_time: start, end_time: end, duration_secs: seconds_between(start, end), exit_code }
}

} // verus!
