//! Which file events announce a new task, and the debounce that lets only
//! one of a burst of events through. Receiving the events is the caller's.
use vstd::prelude::*;

use crate::paths::{has_json_extension, json_extension, path_starts_with, starts_with_path};
use crate::text::cat;

verus! {

/// The time within which a second event is dropped (500 ms), in nanoseconds.
pub const DEBOUNCE_NANOS: u64 = 500_000_000;

/// Whether a path is a task file of the commands directory: under it, with
/// the extension `json`.
pub open spec fn announces_task(path: Seq<char>, commands_dir: Seq<char>) -> bool {
    path_starts_with(path, commands_dir) && json_extension(path)
}

/// Whether a file event announces a new task: a creation or modification
/// that touches a task file of the commands directory.
pub open spec fn new_task_event(creates_or_modifies: bool, paths: Seq<String>, commands_dir: Seq<char>) -> bool {
    creates_or_modifies && exists|i: int| 0 <= i < paths.len() && announces_task(#[trigger] paths[i]@, commands_dir)
}

/// Whether an event (`creates_or_modifies`: its kind is a creation or a
/// modification; `paths`: the paths it touches) announces a new task.
pub fn is_new_json_file(creates_or_modifies: bool, paths: &Vec<String>, commands_dir: &str) -> (b: bool)
    ensures
        b == new_task_event(creates_or_modifies, paths@, commands_dir@),
{
    if !creates_or_modifies {
        return false;
    }
    let mut i: usize = 0;
    while i < paths.len()
        invariant
            creates_or_modifies,
            i <= paths@.len(),
            forall|j: int| 0 <= j < i ==> !announces_task(#[trigger] paths@[j]@, commands_dir@),
        decreases paths@.len() - i,
    {
        let p = paths[i].as_str();
        if starts_with_path(p, commands_dir) && has_json_extension(p) {
            return true;
        }
        i = i + 1;
    }
    false
}

/// The path an announcing event delivers: its first path, when that is a
/// `.json` file.
pub fn delivered_path(paths: &Vec<String>) -> (r: Option<String>)
    ensures
        paths@.len() > 0 && json_extension(paths@[0]@) ==> (r matches Some(p) && p@ == paths@[0]@),
        !(paths@.len() > 0 && json_extension(paths@[0]@)) ==> r is None,
{
    if paths.len() > 0 && has_json_extension(paths[0].as_str()) {
        Some(paths[0].clone())
    } else {
        None
    }
}

/// Lets through the first event of a burst: an event closer than the
/// threshold to the last one let through is dropped. Instants are
/// nanoseconds of a monotonic clock.
#[derive(Clone, Copy, Debug)]
pub struct Debouncer {
    pub threshold_nanos: u64,
    pub last: Option<u64>,
}

/// Time from `last` to `now`, zero when `now` is not later (as
/// `Instant::duration_since` saturates).
pub open spec fn since(last: u64, now: u64) -> int {
    if now >= last {
        now - last
    } else {
        0
    }
}

impl Debouncer {
    /// A debouncer with the 500 ms threshold that has let nothing through.
    pub fn new() -> (d: Debouncer)
        ensures
            d.threshold_nanos == DEBOUNCE_NANOS,
            d.last is None,
    {
        Debouncer { threshold_nanos: DEBOUNCE_NANOS, last: None }
    }

    /// Whether an event at `now` goes through; when it does it becomes the
    /// last one let through.
    pub fn let_through(&mut self, now: u64) -> (b: bool)
        ensures
            b == match old(self).last {
                Some(l) => since(l, now) >= old(self).threshold_nanos,
                None => true,
            },
            final(self).threshold_nanos == old(self).threshold_nanos,
            final(self).last == if b {
                Some(now)
            } else {
                old(self).last
            },
    {
        if let Some(l) = self.last {
            let elapsed = if now >= l {
                now - l
            } else {
                0
            };
            if elapsed < self.threshold_nanos {
                return false;
            }
        }
        self.last = Some(now);
        true
    }
}

/// Watches a commands directory for new task files.
#[derive(Clone, Debug)]
pub struct AsyncFileWatcher {
    commands_dir: String,
    debounce_nanos: u64,
}

impl AsyncFileWatcher {
    /// The watched directory.
    pub closed spec fn dir(self) -> Seq<char> {
        self.commands_dir@
    }

    /// How long, in nanoseconds, the watcher waits before it lets another
    /// event through.
    pub closed spec fn debounce_threshold(self) -> u64 {
        self.debounce_nanos
    }

    /// A watcher of `commands_dir` (`exists`: whether the directory exists),
    /// refused when the directory does not exist.
    pub fn new(commands_dir: String, exists: bool) -> (r: Result<AsyncFileWatcher, String>)
        ensures
            exists ==> (r matches Ok(w) && w.dir() == commands_dir@ && w.debounce_threshold()
                == DEBOUNCE_NANOS),
            !exists ==> (r matches Err(m) && m@ == "Commands directory does not exist: "@
                + commands_dir@),
    {
        if !exists {
            return Err(cat("Commands directory does not exist: ", commands_dir.as_str()));
        }
        Ok(AsyncFileWatcher { commands_dir, debounce_nanos: DEBOUNCE_NANOS })
    }

    /// The watched directory.
    pub fn commands_dir(&self) -> (r: &str)
        ensures
            r@ == self.dir(),
    {
        self.commands_dir.as_str()
    }

    /// A fresh debouncer for the watcher's events, with the watcher's
    /// threshold and no event seen yet.
    pub fn debouncer(&self) -> (d: Debouncer)
        ensures
            d.threshold_nanos == self.debounce_threshold(),
            d.last is None,
    {
        Debouncer { threshold_nanos: self.debounce_nanos, last: None }
    }
}

} // verus!
