//! The daemon's decisions around each task file: which files of the
//! commands directory are pending tasks, the claim marker that makes one
//! daemon path own a task, the task id a file name carries, the concurrency
//! allowed, and the `Failed` result written when a task cannot run.
//! Scanning, claiming, reading and writing files are the caller's.
use vstd::prelude::*;

use crate::base::models::{status_text, TaskOutput, TaskResult, TaskStatus};
use crate::base::protocol::task_file_name_of;
use crate::interop::clock::{stamp_char, Timestamp};
use crate::interop::durations::Span;
use crate::interop::ids::{hex_digit, id_hex, id_text, parse_id, spec_uuid_parse};
use crate::paths::{file_name, file_name_of, with_extension, with_extension_of};
use crate::text::{self, seq_ends_with};

verus! {

/// How many times a task file is read before it counts as unparseable.
pub const MAX_READ_RETRIES: u32 = 3;

/// The concurrency used when none is configured.
pub const DEFAULT_MAX_CONCURRENT: usize = 10;

/// The number of tasks run at once: the configured number (10 when unset)
/// kept within 1 to 100.
pub fn max_concurrency(configured: Option<usize>) -> (n: usize)
    ensures
        n == match configured {
            Some(c) => if c < 1 {
                1
            } else if c > 100 {
                100
            } else {
                c
            },
            None => 10,
        },
        1 <= n <= 100,
{
    let c = match configured {
        Some(c) => c,
        None => 10,
    };
    if c < 1 {
        1
    } else if c > 100 {
        100
    } else {
        c
    }
}

/// The task timeout of the daemon: the configured one, 300 s when unset.
pub fn daemon_task_timeout(configured: Option<Span>) -> (t: Span)
    ensures
        t == match configured {
            Some(d) => d,
            None => Span { secs: 300, nanos: 0 },
        },
{
    match configured {
        Some(d) => d,
        None => Span::from_secs(300),
    }
}

/// The heartbeat interval of the daemon: the configured one, 60 s when unset.
pub fn heartbeat_interval(configured: Option<Span>) -> (t: Span)
    ensures
        t == match configured {
            Some(d) => d,
            None => Span { secs: 60, nanos: 0 },
        },
{
    match configured {
        Some(d) => d,
        None => Span::from_secs(60),
    }
}

/// Whether an entry of the commands directory is a pending task file: its
/// name ends in `.json` (lock, temporary and claim files do not).
pub fn is_pending_task_name(name: &str) -> (b: bool)
    ensures
        b == seq_ends_with(name@, ".json"@),
{
    text::ends_with(name, ".json")
}

/// The claim marker of a task file: the same path with the extension
/// `processing`. Whoever creates it first owns the task.
pub fn claim_marker(path: &str) -> (m: String)
    ensures
        m@ == with_extension_of(path@, "processing"@),
{
    proof {
        reveal_strlit("processing");
    }
    with_extension(path, "processing")
}

/// The text after the last `_` of `s` (all of `s` when it has none), as
/// `rsplit('_').next()` gives it.
pub open spec fn after_last_underscore(s: Seq<char>) -> Seq<char> {
    if exists|k: int| 0 <= k < s.len() && s[k] == '_' {
        let k = choose|k: int|
            0 <= k < s.len() && s[k] == '_' && forall|j: int| k < j < s.len() ==> s[j] != '_';
        s.subrange(k + 1, s.len() as int)
    } else {
        s
    }
}

/// The task id a task file name carries: the name is `{stamp}_{uuid}.json`
/// and the id is what follows the last `_` of the part before `.json`.
pub open spec fn task_id_of_name(name: Seq<char>) -> Option<u128> {
    if seq_ends_with(name, ".json"@) {
        let stem = name.subrange(0, name.len() - 5);
        match spec_uuid_parse(after_last_underscore(stem)) {
            Ok(id) => Some(id),
            Err(_) => None,
        }
    } else {
        None
    }
}

/// The task id a task file path carries (see [`task_id_of_name`]).
pub open spec fn task_id_of_path(path: Seq<char>) -> Option<u128> {
    match file_name_of(path) {
        Some(n) => task_id_of_name(n),
        None => None,
    }
}

fn text_after_last_underscore(s: &str) -> (r: &str)
    ensures
        r@ == after_last_underscore(s@),
{
    let n = s.unicode_len();
    let mut k = n;
    while k > 0 && s.get_char(k - 1) != '_'
        invariant
            k <= n == s@.len(),
            forall|j: int| k <= j < n ==> s@[j] != '_',
        decreases k,
    {
        k = k - 1;
    }
    proof {
        if k == 0 {
            assert(!exists|j: int| 0 <= j < s@.len() && s@[j] == '_');
            assert(s@.subrange(0, n as int) =~= s@);
        } else {
            let w = (k - 1) as int;
            assert(s@[w] == '_');
            let c = choose|c: int|
                0 <= c < s@.len() && s@[c] == '_' && forall|j: int| c < j < s@.len() ==> s@[j] != '_';
            assert(c == w) by {
                if c < w {
                    assert(s@[w] != '_');
                }
                if w < c {
                    assert(s@[c] != '_');
                }
            }
        }
    }
    s.substring_char(k, n)
}

/// The task id a task file path carries, if it names one.
pub fn task_id_from_path(path: &str) -> (r: Option<u128>)
    ensures
        r == task_id_of_path(path@),
{
    let name = match file_name(path) {
        Some(n) => n,
        None => {
            return None;
        },
    };
    proof {
        reveal_strlit(".json");
    }
    if !text::ends_with(name.as_str(), ".json") {
        return None;
    }
    let n = name.unicode_len();
    let stem = name.as_str().substring_char(0, n - 5);
    let part = text_after_last_underscore(stem);
    match parse_id(part) {
        Ok(id) => Some(id),
        Err(_) => None,
    }
}

proof fn lemma_id_text_has_no_underscore(id: u128)
    ensures
        forall|k: int| 0 <= k < id_text(id).len() ==> id_text(id)[k] != '_',
{
    let h = id_hex(id);
    assert forall|k: int| 0 <= k < h.len() implies h[k] != '_' by {
        let d = crate::interop::ids::nibble_from_low(id as nat, (31 - k) as nat);
        assert(h[k] == hex_digit(d));
    }
}

/// A task file's name gives back the task id it was written under: the
/// id found in `{stamp}_{id}.json` is what the canonical text of `id`
/// parses to, whatever the stamp.
pub proof fn lemma_task_file_name_carries_id(stamp: Seq<char>, id: u128)
    requires
        forall|i: int| 0 <= i < stamp.len() ==> stamp_char(#[trigger] stamp[i]),
    ensures
        task_id_of_name(task_file_name_of(stamp, id)) == match spec_uuid_parse(id_text(id)) {
            Ok(x) => Some(x),
            Err(_) => None::<u128>,
        },
{
    reveal_strlit(".json");
    let name = task_file_name_of(stamp, id);
    let stem = stamp + seq!['_'] + id_text(id);
    assert(name =~= stem + ".json"@);
    assert(seq_ends_with(name, ".json"@)) by {
        assert(name.subrange(name.len() - 5, name.len() as int) =~= ".json"@);
    }
    assert(name.subrange(0, name.len() - 5) =~= stem);
    lemma_id_text_has_no_underscore(id);
    let w = stamp.len() as int;
    assert(stem[w] == '_');
    assert forall|j: int| w < j < stem.len() implies stem[j] != '_' by {
        assert(stem[j] == id_text(id)[j - w - 1]);
    }
    let c = choose|c: int|
        0 <= c < stem.len() && stem[c] == '_' && forall|j: int| c < j < stem.len() ==> stem[j] != '_';
    assert(c == w) by {
        if c < w {
            assert(stem[w] != '_');
        }
        if w < c {
            assert(stem[c] != '_');
        }
    }
    assert(stem.subrange(w + 1, stem.len() as int) =~= id_text(id));
}

/// The error recorded for a task file that could not be parsed.
pub fn parse_failure_message() -> (m: String)
    ensures
        m@ == "cannot parse task file (after 3 retries)"@,
{
    "cannot parse task file (after 3 retries)".to_owned()
}

/// The status message written with a task's final status: `ok` for a
/// completed task, none otherwise.
pub fn outcome_note(status: TaskStatus) -> (m: Option<&'static str>)
    ensures
        status == TaskStatus::Completed ==> (m matches Some(s) && s@ == "ok"@),
        status != TaskStatus::Completed ==> m is None,
{
    match status {
        TaskStatus::Completed => Some("ok"),
        _ => None,
    }
}

/// The `Failed` result written for a task that could not run: its error as
/// stderr and error message, no output, no exit code, and no duration.
pub fn failed_result(task_id: u128, command: String, error: &str, now: Timestamp) -> (r: TaskResult)
    ensures
        r.task_id == task_id,
        r.status == TaskStatus::Failed,
        r.output.stdout@.len() == 0,
        r.output.stderr@ == error@,
        r.output.exit_code is None,
        r.command == command,
        r.start_time == now,
        r.end_time == now,
        r.duration_ms == 0,
        r.retries_used == 0,
        r.artifacts@.len() == 0,
        r.error_message matches Some(m) && m@ == error@,
{
    TaskResult {
        task_id,
        status: TaskStatus::Failed,
        output: TaskOutput { stdout: String::new(), stderr: error.to_owned(), exit_code: None },
        command,
        start_time: now,
        end_time: now,
        duration_ms: 0,
        retries_used: 0,
        artifacts: Vec::new(),
        error_message: Some(error.to_owned()),
    }
}

} // verus!
