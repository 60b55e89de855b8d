//! What the executor decides around running a task's command: the timeout
//! that applies, how the command line becomes a program and its arguments,
//! where it runs, how captured output is bounded, and which result a run
//! (or its failure) produces. Spawning the process is left to the caller.
use vstd::prelude::*;

use super::logger::LogManager;
use crate::base::models::{Task, TaskOutput, TaskResult, TaskStatus};
use crate::interop::argv::{spec_shell_split, split_words, string_views};
use crate::interop::clock::{self, Timestamp};
use crate::interop::durations::{is_shorter, shorter, Span};
use crate::text;
use vstd::utf8::{decode_utf8, encode_utf8, is_char_boundary};

verus! {

broadcast use vstd::utf8::encode_utf8_valid_utf8, vstd::utf8::encode_utf8_decode_utf8;

/// Bytes of stdout or stderr kept from one run (1 MiB).
pub const MAX_OUTPUT_BYTES: usize = 1048576;

/// The text that marks a run stopped by its timeout.
pub open spec fn timed_out_marker() -> Seq<char> {
    "Task timed out"@
}

/// Whether a working directory means "stay where the daemon is".
pub open spec fn inherits_dir(dir: Seq<char>) -> bool {
    dir.len() == 0 || dir == seq!['.']
}

/// Only the empty directory and exactly `.` mean the daemon's own
/// directory: any other text, `./build`, `../data` or `.venv` among them,
/// names a directory of its own.
pub proof fn lemma_only_empty_or_dot_inherits(dir: Seq<char>)
    ensures
        inherits_dir(dir) <==> (dir.len() == 0 || (dir.len() == 1 && dir[0] == '.')),
        dir.len() >= 2 ==> !inherits_dir(dir),
{
    if dir.len() == 1 && dir[0] == '.' {
        assert(dir =~= seq!['.']);
    }
}

/// What is started for a task: a program, its arguments, and the directory
/// to run in (`None`: the daemon's own).
#[derive(Clone, Debug)]
pub struct CommandPlan {
    pub program: String,
    pub args: Vec<String>,
    pub working_dir: Option<String>,
}

/// Runs tasks with a default timeout and keeps their logs.
#[derive(Clone, Debug)]
pub struct Executor {
    log_manager: LogManager,
    default_timeout: Span,
}

impl Executor {
    /// The default timeout.
    pub closed spec fn default_timeout(self) -> Span {
        self.default_timeout
    }

    /// The log manager.
    pub closed spec fn logs(self) -> LogManager {
        self.log_manager
    }

    /// An executor whose logs live under `log_root` and whose runs last at
    /// most `default_timeout`.
    pub fn new(log_root: String, default_timeout: Span) -> (e: Executor)
        ensures
            e.logs().root() == log_root@,
            e.default_timeout() == default_timeout,
    {
        Executor { log_manager: LogManager::new(log_root), default_timeout }
    }

    /// The log manager.
    pub fn log_manager(&self) -> (r: &LogManager)
        ensures
            *r == self.logs(),
    {
        &self.log_manager
    }

    /// The timeout of a run of `task`: its own, capped by the default.
    pub fn effective_timeout(&self, task: &Task) -> (t: Span)
        ensures
            t == if shorter(self.default_timeout(), Span { secs: task.timeout, nanos: 0 }) {
                self.default_timeout()
            } else {
                Span { secs: task.timeout, nanos: 0 }
            },
    {
        let own = Span::from_secs(task.timeout);
        if is_shorter(self.default_timeout, own) {
            self.default_timeout
        } else {
            own
        }
    }
}

/// The program a command line is run with: the POSIX shell.
pub open spec fn shell_program() -> Seq<char> {
    "sh"@
}

/// How a task's command line is run: checked for shell syntax first (an
/// unclosed quote is refused, and so is a line without any word), then
/// handed whole to `sh -c`, so that the shell's exit status, expansions and
/// built-ins apply; and the directory to run in.
pub fn plan_command(task: &Task) -> (r: Result<CommandPlan, String>)
    ensures
        match spec_shell_split(task.command@) {
            None => r matches Err(e) && e@ == "Invalid command syntax: missing closing quote"@,
            Some(words) => if words.len() == 0 {
                r matches Err(e) && e@ == "Empty command"@
            } else {
                r matches Ok(p) && p.program@ == shell_program() && string_views(p.args@)
                    == seq!["-c"@, task.command@] && ((p.working_dir is None) <==> (
                task.working_dir@.len() == 0 || task.working_dir@ == seq!['.'])) && match p.working_dir {
                    None => inherits_dir(task.working_dir@),
                    Some(d) => !inherits_dir(task.working_dir@) && d@ == task.working_dir@,
                }
            },
        },
{
    let words = match split_words(task.command.as_str()) {
        Ok(w) => w,
        Err(e) => {
            proof {
                reveal_strlit("Invalid command syntax: ");
                reveal_strlit("missing closing quote");
                reveal_strlit("Invalid command syntax: missing closing quote");
            }
            return Err(text::cat("Invalid command syntax: ", e.as_str()));
        },
    };
    if words.len() == 0 {
        proof {
            reveal_strlit("Empty command");
        }
        return Err("Empty command".to_owned());
    }
    let mut args: Vec<String> = Vec::new();
    args.push("-c".to_owned());
    args.push(task.command.clone());
    proof {
        assert(string_views(args@) =~= seq!["-c"@, task.command@]);
    }
    let n = task.working_dir.unicode_len();
    let inherit = n == 0 || (n == 1 && task.working_dir.as_str().get_char(0) == '.');
    proof {
        if n == 1 && task.working_dir@[0] == '.' {
            assert(task.working_dir@ =~= seq!['.']);
        }
    }
    let working_dir = if inherit {
        None
    } else {
        Some(task.working_dir.clone())
    };
    Ok(CommandPlan { program: "sh".to_owned(), args, working_dir })
}

/// The error a run stopped by its timeout reports.
pub fn timeout_message(secs: u64) -> (m: String)
    ensures
        m@ == "Task timed out after "@ + text::decimal_text(secs as nat) + " seconds"@,
{
    let mut m = "Task timed out after ".to_owned();
    m.append(text::u64_text(secs).as_str());
    m.append(" seconds");
    m
}

/// Whether `end` is the largest char boundary of `bytes` not beyond `max`.
pub open spec fn last_boundary_at_most(bytes: Seq<u8>, max: int, end: int) -> bool {
    &&& 0 <= end <= max
    &&& is_char_boundary(bytes, end)
    &&& forall|k: int| end < k <= max ==> !is_char_boundary(bytes, k)
}

/// `s` cut to at most `max_bytes` bytes of UTF-8 without splitting a
/// character, with `...` appended when something was cut.
pub fn truncate_utf8(s: &str, max_bytes: usize) -> (r: String)
    requires
        encode_utf8(s@).len() <= usize::MAX,
    ensures
        encode_utf8(s@).len() <= max_bytes ==> r@ == s@,
        encode_utf8(s@).len() > max_bytes ==> exists|end: int|
            last_boundary_at_most(encode_utf8(s@), max_bytes as int, end) && r@ == decode_utf8(
                encode_utf8(s@).subrange(0, end),
            ) + "..."@,
{
    if s.len() <= max_bytes {
        return s.to_owned();
    }
    let ghost bytes = encode_utf8(s@);
    let mut end = max_bytes;
    while end > 0 && !s.is_char_boundary(end)
        invariant
            bytes == encode_utf8(s@),
            end <= max_bytes < bytes.len(),
            forall|k: int| end < k <= max_bytes ==> !is_char_boundary(bytes, k),
        decreases end,
    {
        end = end - 1;
    }
    let (head, _tail) = s.split_at(end);
    proof {
        assert(head@ == decode_utf8(encode_utf8(head@)));
        assert(last_boundary_at_most(bytes, max_bytes as int, end as int));
    }
    text::cat(head, "...")
}

/// The output a finished run reports: stdout and stderr each cut to
/// [`MAX_OUTPUT_BYTES`].
pub fn captured_output(stdout: &str, stderr: &str, exit_code: Option<i32>) -> (o: TaskOutput)
    requires
        encode_utf8(stdout@).len() <= usize::MAX,
        encode_utf8(stderr@).len() <= usize::MAX,
    ensures
        o.exit_code == exit_code,
        encode_utf8(stdout@).len() <= MAX_OUTPUT_BYTES ==> o.stdout@ == stdout@,
        encode_utf8(stderr@).len() <= MAX_OUTPUT_BYTES ==> o.stderr@ == stderr@,
        encode_utf8(stdout@).len() > MAX_OUTPUT_BYTES ==> exists|end: int|
            last_boundary_at_most(encode_utf8(stdout@), MAX_OUTPUT_BYTES as int, end) && o.stdout@
                == decode_utf8(encode_utf8(stdout@).subrange(0, end)) + "..."@,
        encode_utf8(stderr@).len() > MAX_OUTPUT_BYTES ==> exists|end: int|
            last_boundary_at_most(encode_utf8(stderr@), MAX_OUTPUT_BYTES as int, end) && o.stderr@
                == decode_utf8(encode_utf8(stderr@).subrange(0, end)) + "..."@,
{
    TaskOutput {
        stdout: truncate_utf8(stdout, MAX_OUTPUT_BYTES),
        stderr: truncate_utf8(stderr, MAX_OUTPUT_BYTES),
        exit_code,
    }
}

/// The result of a run of `task` between `start` and `end`, after
/// `retries_used` earlier runs were retried. A run that finished is
/// `Completed` when it exited with 0 and `Failed` otherwise; a run that
/// could not finish reports its error as stderr and is `Timeout` when the
/// error says it timed out, `Failed` otherwise.
pub fn build_result(
    task: &Task,
    outcome: Result<TaskOutput, String>,
    start: Timestamp,
    end: Timestamp,
    retries_used: u8,
) -> (r: TaskResult)
    requires
        start.wf(),
        end.wf(),
    ensures
        r.task_id == task.task_id,
        r.command@ == task.command@,
        r.start_time == start,
        r.end_time == end,
        r.duration_ms == clock::elapsed_millis(start, end),
        r.retries_used == retries_used,
        r.artifacts@.len() == 0,
        r.wf(),
        match outcome {
            Ok(out) => {
                &&& r.status == (if out.exit_code == Some(0i32) {
                    TaskStatus::Completed
                } else {
                    TaskStatus::Failed
                })
                &&& r.output == out
                &&& r.error_message is None
            },
            Err(e) => {
                &&& r.status == (if text::seq_contains(e@, timed_out_marker()) {
                    TaskStatus::Timeout
                } else {
                    TaskStatus::Failed
                })
                &&& r.output.stdout@.len() == 0
                &&& r.output.stderr@ == e@
                &&& r.output.exit_code is None
                &&& r.error_message matches Some(m) && m@ == e@
            },
        },
{
    let duration_ms = clock::millis_between(start, end);
    match outcome {
        Ok(output) => {
            let status = match output.exit_code {
                Some(c) => if c == 0 {
                    TaskStatus::Completed
                } else {
                    TaskStatus::Failed
                },
                None => TaskStatus::Failed,
            };
            TaskResult {
                task_id: task.task_id,
                status,
                output,
                command: task.command.clone(),
                start_time: start,
                end_time: end,
                duration_ms,
                retries_used,
                artifacts: Vec::new(),
                error_message: None,
            }
        },
        Err(e) => {
            let timed_out = text::contains(e.as_str(), "Task timed out");
            proof {
                reveal_strlit("Task timed out");
            }
            let status = if timed_out {
                TaskStatus::Timeout
            } else {
                TaskStatus::Failed
            };
            let output = TaskOutput { stdout: String::new(), stderr: e.clone(), exit_code: None };
            TaskResult {
                task_id: task.task_id,
                status,
                output,
                command: task.command.clone(),
                start_time: start,
                end_time: end,
                duration_ms,
                retries_used,
                artifacts: Vec::new(),
                error_message: Some(e),
            }
        },
    }
}

/// Whether a run that ended with `status` is retried when `retries_used`
/// retries were made already and the task allows `retry_count`: a run that
/// did not complete is, while retries remain; the value is the retries made
/// once it is.
pub open spec fn retry_after(status: TaskStatus, retries_used: u8, retry_count: u8) -> Option<u8> {
    if status != TaskStatus::Completed && retries_used < retry_count {
        Some((retries_used + 1) as u8)
    } else {
        None
    }
}

/// What follows a run whose result is `result` for a task allowing
/// `retry_count` retries: `Some(n)`, run again with `n` retries made, or
/// `None`, the result stands.
pub fn next_retry(result: &TaskResult, retry_count: u8) -> (r: Option<u8>)
    ensures
        r == retry_after(result.status, result.retries_used, retry_count),
{
    let done = match result.status {
        TaskStatus::Completed => true,
        _ => false,
    };
    if !done && result.retries_used < retry_count {
        Some(result.retries_used + 1)
    } else {
        None
    }
}

/// The number of runs the executor makes when successive runs end with
/// `statuses`, starting with `retries_used` retries made.
pub open spec fn run_count(statuses: Seq<TaskStatus>, retries_used: u8, retry_count: u8) -> nat
    decreases statuses.len(),
{
    if statuses.len() == 0 {
        0
    } else {
        match retry_after(statuses[0], retries_used, retry_count) {
            None => 1,
            Some(k) => 1 + run_count(statuses.drop_first(), k, retry_count),
        }
    }
}

/// The retries the final result reports when successive runs end with
/// `statuses`, starting with `retries_used` retries made.
pub open spec fn final_retries(statuses: Seq<TaskStatus>, retries_used: u8, retry_count: u8) -> u8
    decreases statuses.len(),
{
    if statuses.len() == 0 {
        retries_used
    } else {
        match retry_after(statuses[0], retries_used, retry_count) {
            None => retries_used,
            Some(k) => final_retries(statuses.drop_first(), k, retry_count),
        }
    }
}

/// A task whose runs never complete runs `retry_count + 1` times and its
/// result reports `retry_count` retries; a task whose first run completes
/// runs once with no retry.
pub proof fn lemma_failing_runs_use_every_retry(statuses: Seq<TaskStatus>, retry_count: u8)
    ensures
        (statuses.len() > retry_count && forall|i: int| 0 <= i < statuses.len() ==> #[trigger] statuses[i]
            != TaskStatus::Completed) ==> run_count(statuses, 0, retry_count) == retry_count + 1
            && final_retries(statuses, 0, retry_count) == retry_count,
        (statuses.len() > 0 && statuses[0] == TaskStatus::Completed) ==> run_count(statuses, 0, retry_count)
            == 1 && final_retries(statuses, 0, retry_count) == 0,
{
    if statuses.len() > retry_count && forall|i: int| 0 <= i < statuses.len() ==> #[trigger] statuses[i]
        != TaskStatus::Completed {
        lemma_failing_runs_from(statuses, 0, retry_count);
    }
}

proof fn lemma_failing_runs_from(statuses: Seq<TaskStatus>, used: u8, retry_count: u8)
    requires
        used <= retry_count,
        statuses.len() > retry_count - used,
        forall|i: int| 0 <= i < statuses.len() ==> #[trigger] statuses[i] != TaskStatus::Completed,
    ensures
        run_count(statuses, used, retry_count) == retry_count - used + 1,
        final_retries(statuses, used, retry_count) == retry_count,
    decreases retry_count - used,
{
    assert(statuses[0] != TaskStatus::Completed);
    if used < retry_count {
        let rest = statuses.drop_first();
        assert forall|i: int| 0 <= i < rest.len() implies #[trigger] rest[i] != TaskStatus::Completed by {
            assert(rest[i] == statuses[i + 1]);
        }
        lemma_failing_runs_from(rest, (used + 1) as u8, retry_count);
    }
}

/// The name of the variable that confines a run to one GPU.
pub open spec fn gpu_variable() -> Seq<char> {
    "CUDA_VISIBLE_DEVICES"@
}

/// `task` confined to GPU `gpu_id`: `CUDA_VISIBLE_DEVICES` set to the GPU's
/// number, everything else as it was.
pub fn with_gpu(task: Task, gpu_id: u32) -> (t: Task)
    requires
        task.wf(),
    ensures
        t.wf(),
        t.env_vars@ == task.env_vars@.insert(gpu_variable(), text::decimal_text(gpu_id as nat)),
        t.task_id == task.task_id,
        t.timestamp == task.timestamp,
        t.command == task.command,
        t.task_type == task.task_type,
        t.priority == task.priority,
        t.timeout == task.timeout,
        t.retry_count == task.retry_count,
        t.working_dir == task.working_dir,
        t.artifacts_expected == task.artifacts_expected,
        t.metadata == task.metadata,
        t.batch_id == task.batch_id,
        t.task_name == task.task_name,
{
    let mut t = task;
    t.env_vars.insert("CUDA_VISIBLE_DEVICES".to_owned(), text::u64_text(gpu_id as u64));
    t
}

} // verus!
