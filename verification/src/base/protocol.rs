//! The shared-storage protocol: the directory layout under the shared root,
//! the names of task, result and status files, which files belong to a task,
//! and the status a client is answered from what it finds.
use vstd::prelude::*;

use crate::base::error::BifrostError;
use crate::base::models::{reported_duration_ms, status_text, Task, TaskResult, TaskStatus};
use crate::interop::argv::string_views;
use crate::interop::clock::{compact_stamp, spec_compact_stamp, stamp_char};
use crate::interop::ids::{id_text, id_to_text};
use crate::interop::json::{json_string_field, opt_view, spec_json_string_field};
use crate::paths::{has_json_extension, joined, json_extension, path_join};
use crate::text::{self, cat, seq_contains, seq_ends_with, signed_text};

verus! {

/// The commands directory under a shared root.
pub open spec fn commands_of(root: Seq<char>) -> Seq<char> {
    joined(root, "commands"@)
}

/// The results directory under a shared root.
pub open spec fn results_of(root: Seq<char>) -> Seq<char> {
    joined(root, "results"@)
}

/// The status directory under a shared root.
pub open spec fn status_of(root: Seq<char>) -> Seq<char> {
    joined(root, "status"@)
}

/// The artifacts directory under a shared root.
pub open spec fn artifacts_of(root: Seq<char>) -> Seq<char> {
    joined(root, "artifacts"@)
}

/// The name of the file a task is submitted in: `{stamp}_{task_id}.json`.
pub open spec fn task_file_name_of(stamp: Seq<char>, task_id: u128) -> Seq<char> {
    stamp + seq!['_'] + id_text(task_id) + ".json"@
}

/// The layout of the shared storage: `commands/` (client to daemon),
/// `results/` and `status/` (daemon to client) and `artifacts/`.
#[derive(Clone, Debug)]
pub struct Protocol {
    shared_storage: String,
    commands_dir: String,
    results_dir: String,
    status_dir: String,
    artifacts_dir: String,
}

impl Protocol {
    /// The shared root.
    pub closed spec fn root(self) -> Seq<char> {
        self.shared_storage@
    }

    /// The directories are those of the root.
    pub closed spec fn wf(self) -> bool {
        &&& self.commands_dir@ == commands_of(self.shared_storage@)
        &&& self.results_dir@ == results_of(self.shared_storage@)
        &&& self.status_dir@ == status_of(self.shared_storage@)
        &&& self.artifacts_dir@ == artifacts_of(self.shared_storage@)
    }

    /// The layout under `shared_storage` (the directories themselves are
    /// created by the caller).
    pub fn new(shared_storage: String) -> (p: Protocol)
        ensures
            p.wf(),
            p.root() == shared_storage@,
    {
        let commands_dir = path_join(shared_storage.as_str(), "commands");
        let results_dir = path_join(shared_storage.as_str(), "results");
        let status_dir = path_join(shared_storage.as_str(), "status");
        let artifacts_dir = path_join(shared_storage.as_str(), "artifacts");
        Protocol { shared_storage, commands_dir, results_dir, status_dir, artifacts_dir }
    }

    /// The commands directory.
    pub fn commands_dir(&self) -> (r: &str)
        requires
            self.wf(),
        ensures
            r@ == commands_of(self.root()),
    {
        self.commands_dir.as_str()
    }

    /// The results directory.
    pub fn results_dir(&self) -> (r: &str)
        requires
            self.wf(),
        ensures
            r@ == results_of(self.root()),
    {
        self.results_dir.as_str()
    }

    /// The status directory.
    pub fn status_dir(&self) -> (r: &str)
        requires
            self.wf(),
        ensures
            r@ == status_of(self.root()),
    {
        self.status_dir.as_str()
    }

    /// The artifacts directory.
    pub fn artifacts_dir(&self) -> (r: &str)
        requires
            self.wf(),
        ensures
            r@ == artifacts_of(self.root()),
    {
        self.artifacts_dir.as_str()
    }

    /// The shared root.
    pub fn shared_storage(&self) -> (r: &str)
        ensures
            r@ == self.root(),
    {
        self.shared_storage.as_str()
    }

    /// Where `task` is submitted: `commands/{stamp}_{task_id}.json`, the
    /// stamp being the task's time as `%Y%m%d_%H%M%S`; `None` when that time
    /// has no calendar date.
    pub fn task_file_path(&self, task: &Task) -> (r: Option<String>)
        requires
            self.wf(),
        ensures
            match spec_compact_stamp(task.timestamp.secs, task.timestamp.nanos) {
                None => r is None,
                Some(stamp) => r matches Some(p) && p@ == joined(
                    commands_of(self.root()),
                    task_file_name_of(stamp, task.task_id),
                ),
            },
    {
        let stamp = match compact_stamp(task.timestamp) {
            Some(s) => s,
            None => {
                return None;
            },
        };
        proof {
            reveal_strlit("_");
        }
        let mut name = stamp;
        name.append("_");
        name.append(id_to_text(task.task_id).as_str());
        name.append(".json");
        Some(path_join(self.commands_dir.as_str(), name.as_str()))
    }

    /// Where the result of a task is written: `results/{task_id}_result.json`.
    pub fn result_file_path(&self, task_id: u128) -> (r: String)
        requires
            self.wf(),
        ensures
            r@ == joined(results_of(self.root()), id_text(task_id) + "_result.json"@),
    {
        let name = result_file_name(task_id);
        path_join(self.results_dir.as_str(), name.as_str())
    }

    /// Where the status of a task is written: `status/{task_id}.json`.
    pub fn status_file_path(&self, task_id: u128) -> (r: String)
        requires
            self.wf(),
        ensures
            r@ == joined(status_of(self.root()), id_text(task_id) + ".json"@),
    {
        let name = status_file_name(task_id);
        path_join(self.status_dir.as_str(), name.as_str())
    }
}

/// The name of a task's result file: `{task_id}_result.json`.
pub fn result_file_name(task_id: u128) -> (r: String)
    ensures
        r@ == id_text(task_id) + "_result.json"@,
{
    cat(id_to_text(task_id).as_str(), "_result.json")
}

/// The name of a task's status file: `{task_id}.json`.
pub fn status_file_name(task_id: u128) -> (r: String)
    ensures
        r@ == id_text(task_id) + ".json"@,
{
    cat(id_to_text(task_id).as_str(), ".json")
}

/// Whether a file of the commands directory is the task file of `task_id`:
/// a `.json` file whose name holds the id.
pub open spec fn task_file_for(name: Seq<char>, task_id: u128) -> bool {
    json_extension(name) && seq_contains(name, id_text(task_id))
}

/// Whether removing `task_id` removes a file of the commands directory: its
/// name holds the id and it is not the `.processing` claim marker.
pub open spec fn removable_for(name: Seq<char>, task_id: u128) -> bool {
    seq_contains(name, id_text(task_id)) && !seq_ends_with(name, ".processing"@)
}

/// Whether `name` is the task file of `task_id`.
pub fn is_task_file_for(name: &str, task_id: u128) -> (b: bool)
    ensures
        b == task_file_for(name@, task_id),
{
    has_json_extension(name) && text::contains(name, id_to_text(task_id).as_str())
}

/// Whether removing `task_id` removes the file `name`.
pub fn is_removable_for(name: &str, task_id: u128) -> (b: bool)
    ensures
        b == removable_for(name@, task_id),
{
    text::contains(name, id_to_text(task_id).as_str()) && !text::ends_with(name, ".processing")
}

/// The first of `names` that is the task file of `task_id`.
pub fn select_task_file(names: &Vec<String>, task_id: u128) -> (r: Result<usize, BifrostError>)
    ensures
        match r {
            Ok(i) => i < names@.len() && task_file_for(names@[i as int]@, task_id) && forall|j: int|
                0 <= j < i ==> !task_file_for(#[trigger] names@[j]@, task_id),
            Err(e) => e == BifrostError::TaskNotFound(task_id) && forall|j: int|
                0 <= j < names@.len() ==> !task_file_for(#[trigger] names@[j]@, task_id),
        },
{
    let mut i: usize = 0;
    while i < names.len()
        invariant
            i <= names@.len(),
            forall|j: int| 0 <= j < i ==> !task_file_for(#[trigger] names@[j]@, task_id),
        decreases names@.len() - i,
    {
        if is_task_file_for(names[i].as_str(), task_id) {
            return Ok(i);
        }
        i = i + 1;
    }
    Err(BifrostError::TaskNotFound(task_id))
}

/// The names kept by [`removable_for`], in order.
pub open spec fn removable_names_of(names: Seq<Seq<char>>, task_id: u128) -> Seq<Seq<char>>
    decreases names.len(),
{
    if names.len() == 0 {
        names
    } else {
        let rest = removable_names_of(names.drop_last(), task_id);
        if removable_for(names.last(), task_id) {
            rest.push(names.last())
        } else {
            rest
        }
    }
}

/// The files of the commands directory that removing `task_id` deletes.
pub fn removable_names(names: &Vec<String>, task_id: u128) -> (r: Vec<String>)
    ensures
        string_views(r@) == removable_names_of(string_views(names@), task_id),
{
    let mut r: Vec<String> = Vec::new();
    let mut i: usize = 0;
    while i < names.len()
        invariant
            i <= names@.len(),
            string_views(r@) == removable_names_of(string_views(names@).take(i as int), task_id),
        decreases names@.len() - i,
    {
        proof {
            let v = string_views(names@);
            assert(v.take(i + 1).drop_last() =~= v.take(i as int));
            assert(v.take(i + 1).last() == names@[i as int]@);
        }
        if is_removable_for(names[i].as_str(), task_id) {
            let ghost before = r@;
            r.push(names[i].clone());
            proof {
                assert(string_views(r@) =~= string_views(before).push(names@[i as int]@));
            }
        }
        i = i + 1;
    }
    proof {
        assert(string_views(names@).take(names@.len() as int) =~= string_views(names@));
    }
    r
}

/// The files removing `task_id` deletes, or `TaskNotFound` when there are
/// none.
pub fn select_removable(names: &Vec<String>, task_id: u128) -> (r: Result<
    Vec<String>,
    BifrostError,
>)
    ensures
        match r {
            Ok(v) => string_views(v@) == removable_names_of(string_views(names@), task_id)
                && v@.len() > 0,
            Err(e) => e == BifrostError::TaskNotFound(task_id) && removable_names_of(
                string_views(names@),
                task_id,
            ).len() == 0,
        },
{
    let v = removable_names(names, task_id);
    if v.len() == 0 {
        Err(BifrostError::TaskNotFound(task_id))
    } else {
        Ok(v)
    }
}

/// `c` in lower case, for ASCII letters.
pub open spec fn ascii_lower(c: char) -> char {
    if 'A' <= c <= 'Z' {
        ((c as u32) + 32) as char
    } else {
        c
    }
}

/// Whether `s` in lower case is the lower-case word `w`.
pub open spec fn lower_eq(s: Seq<char>, w: Seq<char>) -> bool {
    s.len() == w.len() && forall|i: int| 0 <= i < s.len() ==> ascii_lower(#[trigger] s[i]) == w[i]
}

/// The status a status name stands for, compared without regard to case;
/// unknown names stand for `Pending`.
pub open spec fn status_named(s: Seq<char>) -> TaskStatus {
    if lower_eq(s, "pending"@) {
        TaskStatus::Pending
    } else if lower_eq(s, "running"@) {
        TaskStatus::Running
    } else if lower_eq(s, "completed"@) || lower_eq(s, "success"@) {
        TaskStatus::Completed
    } else if lower_eq(s, "failed"@) || lower_eq(s, "error"@) {
        TaskStatus::Failed
    } else if lower_eq(s, "cancelled"@) {
        TaskStatus::Cancelled
    } else if lower_eq(s, "timeout"@) {
        TaskStatus::Timeout
    } else {
        TaskStatus::Pending
    }
}

/// Whether `s` is the word `w` (ASCII lower-case letters) in any case.
fn matches_word(s: &str, w: &str) -> (b: bool)
    requires
        forall|i: int| 0 <= i < w@.len() ==> 'a' <= #[trigger] w@[i] <= 'z',
    ensures
        b == lower_eq(s@, w@),
{
    let n = s.unicode_len();
    if n != w.unicode_len() {
        return false;
    }
    let mut i: usize = 0;
    while i < n
        invariant
            n == s@.len(),
            n == w@.len(),
            i <= n,
            forall|k: int| 0 <= k < w@.len() ==> 'a' <= #[trigger] w@[k] <= 'z',
            forall|k: int| 0 <= k < i ==> ascii_lower(#[trigger] s@[k]) == w@[k],
        decreases n - i,
    {
        let c = s.get_char(i);
        let d = w.get_char(i);
        let same = c == d || ('A' <= c && c <= 'Z' && (c as u32) + 32 == (d as u32));
        proof {
            if 'A' <= c <= 'Z' {
                assert(((c as u32) + 32) as char == d <==> (c as u32) + 32 == (d as u32));
            }
        }
        if !same {
            return false;
        }
        i = i + 1;
    }
    true
}

/// The status a status name stands for (see [`status_named`]). The names
/// are compared as `to_lowercase` compares them: no character outside ASCII
/// lowers to a letter of these words.
pub fn parse_status_string(s: &str) -> (r: TaskStatus)
    ensures
        r == status_named(s@),
{
    proof {
        reveal_strlit("pending");
        reveal_strlit("running");
        reveal_strlit("completed");
        reveal_strlit("success");
        reveal_strlit("failed");
        reveal_strlit("error");
        reveal_strlit("cancelled");
        reveal_strlit("timeout");
    }
    if matches_word(s, "pending") {
        TaskStatus::Pending
    } else if matches_word(s, "running") {
        TaskStatus::Running
    } else if matches_word(s, "completed") || matches_word(s, "success") {
        TaskStatus::Completed
    } else if matches_word(s, "failed") || matches_word(s, "error") {
        TaskStatus::Failed
    } else if matches_word(s, "cancelled") {
        TaskStatus::Cancelled
    } else if matches_word(s, "timeout") {
        TaskStatus::Timeout
    } else {
        TaskStatus::Pending
    }
}

/// A status name read back is the status written: every status's own name
/// stands for that status.
pub proof fn lemma_status_name_round_trip(s: TaskStatus)
    ensures
        status_named(status_text(s)) == s,
{
    reveal_strlit("Pending");
    reveal_strlit("Running");
    reveal_strlit("Completed");
    reveal_strlit("Failed");
    reveal_strlit("Cancelled");
    reveal_strlit("Timeout");
    reveal_strlit("pending");
    reveal_strlit("running");
    reveal_strlit("completed");
    reveal_strlit("success");
    reveal_strlit("failed");
    reveal_strlit("error");
    reveal_strlit("cancelled");
    reveal_strlit("timeout");
    let t = status_text(s);
    assert(!lower_eq(t, "pending"@) || s == TaskStatus::Pending) by {
        if s != TaskStatus::Pending && t.len() == 7 {
            assert(ascii_lower(t[0]) != 'p');
        }
    }
    assert(!lower_eq(t, "running"@) || s == TaskStatus::Running) by {
        if s != TaskStatus::Running && t.len() == 7 {
            assert(ascii_lower(t[0]) != 'r');
        }
    }
    assert(!lower_eq(t, "completed"@) || s == TaskStatus::Completed) by {
        if s != TaskStatus::Completed && t.len() == 9 {
            assert(ascii_lower(t[0]) != 'c' || ascii_lower(t[1]) != 'o');
        }
    }
    assert(!lower_eq(t, "success"@)) by {
        if t.len() == 7 {
            assert(ascii_lower(t[0]) != 's');
        }
    }
    assert(!lower_eq(t, "failed"@) || s == TaskStatus::Failed);
    assert(!lower_eq(t, "error"@));
    assert(!lower_eq(t, "cancelled"@) || s == TaskStatus::Cancelled) by {
        if s != TaskStatus::Cancelled && t.len() == 9 {
            assert(ascii_lower(t[1]) != 'a');
        }
    }
    match s {
        TaskStatus::Pending => {
            assert(lower_eq(t, "pending"@));
        },
        TaskStatus::Running => {
            assert(lower_eq(t, "running"@));
        },
        TaskStatus::Completed => {
            assert(lower_eq(t, "completed"@));
        },
        TaskStatus::Failed => {
            assert(lower_eq(t, "failed"@));
        },
        TaskStatus::Cancelled => {
            assert(lower_eq(t, "cancelled"@));
        },
        TaskStatus::Timeout => {
            assert(lower_eq(t, "timeout"@));
        },
    }
}

/// The status of a task as a client is answered.
#[derive(Clone, Debug)]
pub struct TaskStatusResponse {
    pub task_id: u128,
    pub status: TaskStatus,
    pub message: Option<String>,
}

/// What a status query found first, looking in `results/`, then in
/// `status/`, then in `commands/`.
#[derive(Clone, Debug)]
pub enum StatusSource {
    /// The task's result file, read.
    Finished(TaskResult),
    /// The text of the task's status file.
    Reported(String),
    /// No result or status file, but the task file is in `commands/`.
    Queued,
    /// Nothing of the task anywhere.
    Absent,
}

/// What a status query goes by, given what it found of the task: its
/// result when there is one, else its status file's text when there is one,
/// else whether its task file is still queued.
pub fn status_source_of(result: Option<TaskResult>, status: Option<String>, queued: bool) -> (s: StatusSource)
    ensures
        match result {
            Some(r) => s == StatusSource::Finished(r),
            None => match status {
                Some(d) => s == StatusSource::Reported(d),
                None => if queued {
                    s is Queued
                } else {
                    s is Absent
                },
            },
        },
{
    match result {
        Some(r) => StatusSource::Finished(r),
        None => match status {
            Some(d) => StatusSource::Reported(d),
            None => if queued {
                StatusSource::Queued
            } else {
                StatusSource::Absent
            },
        },
    }
}

/// The answer to a status query from what it found: a result gives its
/// status and duration, a status file the status and message written in it
/// (`unknown` when it holds no status), a queued task `Pending`; a task
/// found nowhere is `TaskNotFound`, and a status file that is not JSON a
/// `JsonError`.
pub fn status_response(task_id: u128, source: StatusSource) -> (r: Result<
    TaskStatusResponse,
    BifrostError,
>)
    requires
        source matches StatusSource::Finished(res) ==> res.wf(),
    ensures
        match source {
            StatusSource::Finished(res) => r matches Ok(resp) && resp.task_id == task_id
                && resp.status == res.status && opt_view(resp.message) == Some(
                "Task completed in "@ + signed_text(reported_duration_ms(res)) + "ms"@,
            ),
            StatusSource::Reported(doc) => match spec_json_string_field(doc@, "status"@) {
                Err(e) => r matches Err(BifrostError::JsonError(m)) && m@ == e,
                Ok(st) => match spec_json_string_field(doc@, "message"@) {
                    Err(e) => r matches Err(BifrostError::JsonError(m)) && m@ == e,
                    Ok(msg) => r matches Ok(resp) && resp.task_id == task_id && resp.status
                        == status_named(
                        match st {
                            Some(x) => x,
                            None => "unknown"@,
                        },
                    ) && opt_view(resp.message) == msg,
                },
            },
            StatusSource::Queued => r matches Ok(resp) && resp.task_id == task_id && resp.status
                == TaskStatus::Pending && opt_view(resp.message) == Some(
                "Task is pending execution"@,
            ),
            StatusSource::Absent => r matches Err(e) && e == BifrostError::TaskNotFound(task_id),
        },
{
    match source {
        StatusSource::Finished(res) => {
            let mut m = "Task completed in ".to_owned();
            m.append(text::i64_text(res.duration_ms()).as_str());
            m.append("ms");
            Ok(TaskStatusResponse { task_id, status: res.status, message: Some(m) })
        },
        StatusSource::Reported(doc) => {
            let st = match json_string_field(doc.as_str(), "status") {
                Ok(v) => v,
                Err(e) => {
                    return Err(BifrostError::JsonError(e));
                },
            };
            let msg = match json_string_field(doc.as_str(), "message") {
                Ok(v) => v,
                Err(e) => {
                    return Err(BifrostError::JsonError(e));
                },
            };
            let status = match st {
                Some(x) => parse_status_string(x.as_str()),
                None => parse_status_string("unknown"),
            };
            Ok(TaskStatusResponse { task_id, status, message: msg })
        },
        StatusSource::Queued => Ok(
            TaskStatusResponse {
                task_id,
                status: TaskStatus::Pending,
                message: Some("Task is pending execution".to_owned()),
            },
        ),
        StatusSource::Absent => Err(BifrostError::TaskNotFound(task_id)),
    }
}


/// Status names are read without regard to case: two names that agree
/// letter for letter once lowered stand for the same status.
pub proof fn lemma_status_named_ignores_case(a: Seq<char>, b: Seq<char>)
    requires
        a.len() == b.len(),
        forall|i: int| 0 <= i < a.len() ==> ascii_lower(#[trigger] a[i]) == ascii_lower(b[i]),
    ensures
        status_named(a) == status_named(b),
{
    assert forall|w: Seq<char>| lower_eq(a, w) <==> lower_eq(b, w) by {
        if lower_eq(a, w) {
            assert forall|i: int| 0 <= i < b.len() implies ascii_lower(#[trigger] b[i]) == w[i] by {
                assert(ascii_lower(a[i]) == w[i]);
            }
        }
        if lower_eq(b, w) {
            assert forall|i: int| 0 <= i < a.len() implies ascii_lower(#[trigger] a[i]) == w[i] by {
                assert(ascii_lower(b[i]) == w[i]);
            }
        }
    }
}

/// A status written in any mix of cases reads back as that status: a name
/// that lowers letter for letter to the lowered name of `s` stands for `s`
/// (so do its all-upper and all-lower case forms).
pub proof fn lemma_status_name_any_case(s: TaskStatus, t: Seq<char>)
    requires
        t.len() == status_text(s).len(),
        forall|i: int| 0 <= i < t.len() ==> ascii_lower(#[trigger] t[i]) == ascii_lower(status_text(s)[i]),
    ensures
        status_named(t) == s,
{
    lemma_status_name_round_trip(s);
    lemma_status_named_ignores_case(t, status_text(s));
}

} // verus!
