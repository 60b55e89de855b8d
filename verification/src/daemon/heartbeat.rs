//! The daemon's heartbeat: what it reports (its identity, the time, its
//! state and task counts), where it is written, and when a heartbeat counts
//! as alive.
use vstd::prelude::*;

use crate::interop::clock::{self, elapsed_secs, Timestamp};
use crate::interop::ids::fresh_id;
use crate::paths::{joined, path_join};

verus! {

/// How long a heartbeat stays fresh, in seconds.
pub const ALIVE_SECS: i64 = 120;

/// State of the daemon.
#[derive(Clone, Copy, Debug, PartialEq, Eq, Structural)]
pub enum DaemonStatus {
    /// Running normally
    Running,
    /// Idle (no tasks)
    Idle,
    /// Shutting down
    ShuttingDown,
    /// Encountered an error
    Error,
}

/// What a heartbeat reports.
#[derive(Clone, Copy, Debug)]
pub struct HeartbeatInfo {
    /// Daemon identifier
    pub machine_id: u128,
    /// Time of the heartbeat
    pub timestamp: Timestamp,
    /// Daemon state
    pub status: DaemonStatus,
    /// Number of active tasks
    pub active_tasks: usize,
    /// Number of pending tasks
    pub pending_tasks: usize,
}

/// Whether a heartbeat taken at `beat` is alive at `now`: less than two
/// minutes (in whole seconds) have passed.
pub open spec fn alive_at(beat: Timestamp, now: Timestamp) -> bool {
    elapsed_secs(beat, now) < ALIVE_SECS
}

/// Whether a heartbeat is alive at `now`.
pub fn is_alive_at(heartbeat: &HeartbeatInfo, now: Timestamp) -> (b: bool)
    requires
        heartbeat.timestamp.wf(),
        now.wf(),
    ensures
        b == alive_at(heartbeat.timestamp, now),
{
    clock::seconds_between(heartbeat.timestamp, now) < 120
}

/// The heartbeat of a daemon: its report, the file it is written to, and
/// whether it was told to stop.
#[derive(Clone, Debug)]
pub struct Heartbeat {
    info: HeartbeatInfo,
    heartbeat_file: String,
    stopped: bool,
}

impl Heartbeat {
    /// The report.
    pub closed spec fn report(self) -> HeartbeatInfo {
        self.info
    }

    /// The heartbeat file.
    pub closed spec fn file(self) -> Seq<char> {
        self.heartbeat_file@
    }

    /// Whether it was told to stop.
    pub closed spec fn is_stopped(self) -> bool {
        self.stopped
    }

    /// A heartbeat for a new daemon with shared root `shared_storage`: a
    /// fresh identity, idle, no tasks, written to `heartbeat.json`.
    pub fn new(shared_storage: &str) -> (h: Heartbeat)
        ensures
            h.file() == joined(shared_storage@, "heartbeat.json"@),
            h.report().status == DaemonStatus::Idle,
            h.report().active_tasks == 0,
            h.report().pending_tasks == 0,
            h.report().timestamp.wf(),
            !h.is_stopped(),
    {
        let info = HeartbeatInfo {
            machine_id: fresh_id(),
            timestamp: clock::now(),
            status: DaemonStatus::Idle,
            active_tasks: 0,
            pending_tasks: 0,
        };
        Heartbeat {
            info,
            heartbeat_file: path_join(shared_storage, "heartbeat.json"),
            stopped: false,
        }
    }

    /// Sets the reported state, stamped with the current time.
    pub fn update_status(&mut self, status: DaemonStatus)
        ensures
            final(self).report().status == status,
            final(self).report().machine_id == old(self).report().machine_id,
            final(self).report().active_tasks == old(self).report().active_tasks,
            final(self).report().pending_tasks == old(self).report().pending_tasks,
            final(self).report().timestamp.wf(),
            final(self).file() == old(self).file(),
            final(self).is_stopped() == old(self).is_stopped(),
    {
        self.info.status = status;
        self.info.timestamp = clock::now();
    }

    /// Sets the reported task counts, stamped with the current time.
    pub fn update_task_counts(&mut self, active: usize, pending: usize)
        ensures
            final(self).report().active_tasks == active,
            final(self).report().pending_tasks == pending,
            final(self).report().status == old(self).report().status,
            final(self).report().machine_id == old(self).report().machine_id,
            final(self).report().timestamp.wf(),
            final(self).file() == old(self).file(),
            final(self).is_stopped() == old(self).is_stopped(),
    {
        self.info.active_tasks = active;
        self.info.pending_tasks = pending;
        self.info.timestamp = clock::now();
    }

    /// Tells the heartbeat to stop.
    pub fn stop(&mut self)
        ensures
            final(self).is_stopped(),
            final(self).report() == old(self).report(),
            final(self).file() == old(self).file(),
    {
        self.stopped = true;
    }

    /// Whether the heartbeat was told to stop.
    pub fn stopped(&self) -> (b: bool)
        ensures
            b == self.is_stopped(),
    {
        self.stopped
    }

    /// The report.
    pub fn info(&self) -> (r: &HeartbeatInfo)
        ensures
            *r == self.report(),
    {
        &self.info
    }

    /// The heartbeat file.
    pub fn heartbeat_file(&self) -> (r: &str)
        ensures
            r@ == self.file(),
    {
        self.heartbeat_file.as_str()
    }

    /// Whether a heartbeat is alive now. The current time comes from the
    /// clock, so what holds is that it is alive at some instant.
    pub fn is_alive(heartbeat: &HeartbeatInfo) -> (b: bool)
        requires
            heartbeat.timestamp.wf(),
        ensures
            exists|now: Timestamp| now.wf() && b == alive_at(heartbeat.timestamp, now),
    {
        let now = clock::now();
        is_alive_at(heartbeat, now)
    }
}

} // verus!
