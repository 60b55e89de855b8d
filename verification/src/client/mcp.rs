//! The decisions behind the MCP tools: the task a submit request becomes,
//! how a task id in a request is read, the messages of failed tool calls,
//! and when the daemon counts as alive.
use vstd::prelude::*;

use crate::base::error::{error_text, BifrostError};
use crate::base::models::{Task, TaskType};
use crate::client::submit::submission_task;
use crate::interop::durations::Span;
use crate::interop::ids::{parse_id, spec_uuid_parse};
use crate::numbers::{is_white, is_white_space};
use crate::text::{self, cat, seq_starts_with};

verus! {

/// `s` without its leading white space.
pub open spec fn trim_start_view(s: Seq<char>) -> Seq<char>
    decreases s.len(),
{
    if s.len() > 0 && is_white_space(s[0]) {
        trim_start_view(s.drop_first())
    } else {
        s
    }
}

/// The type of a submitted command: `Pytest` when, after leading white
/// space, it starts with `pytest`, `Shell` otherwise.
pub open spec fn command_task_type(command: Seq<char>) -> TaskType {
    if seq_starts_with(trim_start_view(command), "pytest"@) {
        TaskType::Pytest
    } else {
        TaskType::Shell
    }
}

/// A submitted command is a pytest task exactly when, after its leading
/// white space, its first six characters are `pytest`; `python ...`,
/// `py.test` or a shorter text are shell tasks.
pub proof fn lemma_pytest_iff_starts_with_pytest(command: Seq<char>)
    ensures
        (command_task_type(command) == TaskType::Pytest) <==> (trim_start_view(command).len() >= 6
            && trim_start_view(command).subrange(0, 6) == seq!['p', 'y', 't', 'e', 's', 't']),
        command_task_type(command) == TaskType::Pytest || command_task_type(command)
            == TaskType::Shell,
{
    reveal_strlit("pytest");
    assert("pytest"@ =~= seq!['p', 'y', 't', 'e', 's', 't']);
}

/// The type of a submitted command (see [`command_task_type`]).
pub fn task_type_for(command: &str) -> (t: TaskType)
    ensures
        t == command_task_type(command@),
        (t == TaskType::Pytest) <==> (trim_start_view(command@).len() >= 6 && trim_start_view(
            command@,
        ).subrange(0, 6) == seq!['p', 'y', 't', 'e', 's', 't']),
{
    let n = command.unicode_len();
    let mut lo: usize = 0;
    proof {
        assert(command@.subrange(0, n as int) =~= command@);
    }
    while lo < n && is_white(command.get_char(lo))
        invariant
            lo <= n == command@.len(),
            trim_start_view(command@) == trim_start_view(command@.subrange(lo as int, n as int)),
        decreases n - lo,
    {
        proof {
            let rest = command@.subrange(lo as int, n as int);
            assert(rest.drop_first() =~= command@.subrange(lo + 1, n as int));
        }
        lo = lo + 1;
    }
    let rest = command.substring_char(lo, n);
    proof {
        assert(rest@ =~= command@.subrange(lo as int, n as int));
        lemma_pytest_iff_starts_with_pytest(command@);
    }
    if text::starts_with(rest, "pytest") {
        TaskType::Pytest
    } else {
        TaskType::Shell
    }
}

/// A request to submit a command.
#[derive(Clone, Debug)]
pub struct SubmitRequest {
    /// Command to run (shell features need `sh -c '...'`)
    pub command: String,
    /// Timeout in seconds (300 when absent)
    pub timeout: Option<u64>,
    /// Priority, lower runs first (0 when absent)
    pub priority: Option<u8>,
    /// Working directory on the target node (the daemon's when absent)
    pub working_dir: Option<String>,
}

/// A request naming a task by its id.
#[derive(Clone, Debug)]
pub struct StatusRequest {
    /// Task id as text
    pub task_id: String,
}

/// The task a submit request becomes: its command, typed by
/// [`command_task_type`], with timeout 300 and priority 0 unless given.
pub fn request_task(req: SubmitRequest) -> (t: Task)
    ensures
        t.command == req.command,
        t.task_type == command_task_type(req.command@),
        t.timeout == match req.timeout {
            Some(x) => x,
            None => 300,
        },
        t.priority == match req.priority {
            Some(p) => p,
            None => 0,
        },
        t.working_dir@ == match req.working_dir {
            Some(w) => w@,
            None => "."@,
        },
        t.timestamp.wf(),
        t.wf(),
{
    let task_type = task_type_for(req.command.as_str());
    let timeout = match req.timeout {
        Some(x) => x,
        None => 300,
    };
    let priority = match req.priority {
        Some(p) => p,
        None => 0,
    };
    submission_task(req.command, task_type, priority, timeout, req.working_dir)
}

/// The task id of a request, or `invalid task_id: ` and the parse error.
pub fn request_task_id(req: &StatusRequest) -> (r: Result<u128, String>)
    ensures
        match spec_uuid_parse(req.task_id@) {
            Ok(id) => r == Ok::<u128, String>(id),
            Err(e) => r matches Err(m) && m@ == "invalid task_id: "@ + e,
        },
{
    match parse_id(req.task_id.as_str()) {
        Ok(id) => Ok(id),
        Err(e) => Err(cat("invalid task_id: ", e.as_str())),
    }
}

/// The message of a failed tool call: what failed, `: `, and the error.
pub fn tool_error(what: &str, e: &BifrostError) -> (m: String)
    ensures
        m@ == what@ + ": "@ + error_text(*e),
{
    let mut m = cat(what, ": ");
    m.append(e.message().as_str());
    m
}

/// The answer of the health tool.
#[derive(Clone, Copy, Debug)]
pub struct HealthReport {
    pub alive: bool,
    pub heartbeat_age_secs: Option<u64>,
    pub heartbeat_timeout_secs: u64,
}

/// Whether the daemon is alive: its heartbeat is younger than the
/// heartbeat timeout (180 s unless configured); no heartbeat means dead.
pub fn health(age_secs: Option<u64>, heartbeat_timeout: Option<Span>) -> (h: HealthReport)
    ensures
        h.heartbeat_timeout_secs == match heartbeat_timeout {
            Some(d) => d.secs,
            None => 180,
        },
        h.heartbeat_age_secs == age_secs,
        h.alive == match age_secs {
            Some(a) => a < h.heartbeat_timeout_secs,
            None => false,
        },
{
    let timeout_secs = match heartbeat_timeout {
        Some(d) => d.secs,
        None => 180,
    };
    let alive = match age_secs {
        Some(a) => a < timeout_secs,
        None => false,
    };
    HealthReport { alive, heartbeat_age_secs: age_secs, heartbeat_timeout_secs: timeout_secs }
}

} // verus!
