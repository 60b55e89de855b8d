//! Cleaning up finished tasks: which result files mark a finished task,
//! which of those are old enough, and the files that belong to each. Files
//! of unfinished tasks and the heartbeat and settings files are never
//! among them. Listing directories and deleting is the caller's.
use vstd::prelude::*;

use crate::interop::argv::string_views;
use crate::interop::durations::{shorter, Span};
use crate::paths::{joined, path_join};
use crate::text::{self, cat, seq_ends_with, seq_starts_with};
use vstd::utf8::encode_utf8;

verus! {

/// The files of one finished task.
#[derive(Clone, Debug)]
pub struct CleanCandidate {
    pub task_id: String,
    /// Result file (`results/{id}_result.json`)
    pub result: String,
    /// Status file (`status/{id}.json`), if it exists
    pub status: Option<String>,
    /// Command files (`commands/{id}.json` and `{id}.lock`) that exist
    pub commands: Vec<String>,
    /// Log directory (`logs/{id}/`), if it exists
    pub logs: Option<String>,
    /// Artifacts whose names start with the id
    pub artifacts: Vec<String>,
}

/// The task id a result file name marks: the name without `_result.json`,
/// when what is left is 36 bytes long, the length of a task id.
pub open spec fn finished_id_of(name: Seq<char>) -> Option<Seq<char>> {
    if seq_ends_with(name, "_result.json"@) {
        let id = name.subrange(0, name.len() - 12);
        if encode_utf8(id).len() == 36 {
            Some(id)
        } else {
            None
        }
    } else {
        None
    }
}

proof fn lemma_encode_concat(a: Seq<char>, b: Seq<char>)
    ensures
        encode_utf8(a + b) == encode_utf8(a) + encode_utf8(b),
    decreases a.len(),
{
    if a.len() > 0 {
        lemma_encode_concat(a.drop_first(), b);
        assert((a + b).drop_first() =~= a.drop_first() + b);
        assert((a + b)[0] == a[0]);
    } else {
        assert(a + b =~= b);
    }
}

/// The task id a result file name marks, if any.
pub fn finished_task_id(name: &str) -> (r: Option<String>)
    requires
        encode_utf8(name@).len() <= usize::MAX,
    ensures
        match finished_id_of(name@) {
            Some(id) => r matches Some(s) && s@ == id,
            None => r is None,
        },
{
    proof {
        reveal_strlit("_result.json");
    }
    if !text::ends_with(name, "_result.json") {
        return None;
    }
    let n = name.unicode_len();
    let id = name.substring_char(0, n - 12);
    proof {
        assert(name@ =~= id@ + name@.subrange(n - 12, n as int));
        lemma_encode_concat(id@, name@.subrange(n - 12, n as int));
    }
    if id.len() == 36 {
        Some(id.to_owned())
    } else {
        None
    }
}

/// Whether a finished task whose result file is `age` old is old enough to
/// clean up: at least `older_than_days` days.
pub fn old_enough(age: Span, older_than_days: u64) -> (b: bool)
    requires
        older_than_days * 86400 <= u64::MAX,
    ensures
        b == !shorter(age, Span { secs: (older_than_days * 86400) as u64, nanos: 0 }),
{
    let limit = Span::from_secs(older_than_days * 86400);
    !crate::interop::durations::is_shorter(age, limit)
}

/// The status file of a task under the shared root.
pub fn status_file(storage: &str, task_id: &str) -> (r: String)
    ensures
        r@ == joined(joined(storage@, "status"@), task_id@ + ".json"@),
{
    let d = path_join(storage, "status");
    path_join(d.as_str(), cat(task_id, ".json").as_str())
}

/// The command files a task may have left: `{id}.json` and `{id}.lock`.
pub fn command_files(storage: &str, task_id: &str) -> (r: (String, String))
    ensures
        r.0@ == joined(joined(storage@, "commands"@), task_id@ + ".json"@),
        r.1@ == joined(joined(storage@, "commands"@), task_id@ + ".lock"@),
{
    let d = path_join(storage, "commands");
    (path_join(d.as_str(), cat(task_id, ".json").as_str()), path_join(d.as_str(), cat(task_id, ".lock").as_str()))
}

/// The log directory of a task.
pub fn logs_dir(storage: &str, task_id: &str) -> (r: String)
    ensures
        r@ == joined(joined(storage@, "logs"@), task_id@),
{
    let d = path_join(storage, "logs");
    path_join(d.as_str(), task_id)
}

/// Whether an entry of the artifacts directory belongs to a task: its name
/// starts with the id.
pub fn artifact_belongs(name: &str, task_id: &str) -> (b: bool)
    ensures
        b == seq_starts_with(name@, task_id@),
{
    text::starts_with(name, task_id)
}

/// The paths of the entries whose names start with `task_id`, in order.
pub open spec fn belonging(entries: Seq<(String, String)>, task_id: Seq<char>) -> Seq<Seq<char>>
    decreases entries.len(),
{
    if entries.len() == 0 {
        Seq::empty()
    } else {
        let rest = belonging(entries.drop_last(), task_id);
        if seq_starts_with(entries.last().0@, task_id) {
            rest.push(entries.last().1@)
        } else {
            rest
        }
    }
}

/// The files of a finished task, from what exists: the status file, the
/// command files and log directory when they exist, and the artifacts (as
/// name and path) whose names start with the id.
pub fn collect_for_task(
    task_id: String,
    result: String,
    status: (String, bool),
    commands: ((String, bool), (String, bool)),
    logs: (String, bool),
    artifact_entries: &Vec<(String, String)>,
) -> (c: CleanCandidate)
    ensures
        c.task_id == task_id,
        c.result == result,
        c.status == if status.1 {
            Some(status.0)
        } else {
            None
        },
        c.commands@ == (if commands.0.1 {
            seq![commands.0.0]
        } else {
            Seq::empty()
        }) + (if commands.1.1 {
            seq![commands.1.0]
        } else {
            Seq::empty()
        }),
        c.logs == if logs.1 {
            Some(logs.0)
        } else {
            None
        },
        string_views(c.artifacts@) == belonging(artifact_entries@, task_id@),
{
    let mut cmds: Vec<String> = Vec::new();
    let ((json, json_exists), (lock, lock_exists)) = commands;
    if json_exists {
        cmds.push(json);
    }
    if lock_exists {
        cmds.push(lock);
    }
    let mut artifacts: Vec<String> = Vec::new();
    let mut j: usize = 0;
    while j < artifact_entries.len()
        invariant
            j <= artifact_entries@.len(),
            string_views(artifacts@) == belonging(artifact_entries@.take(j as int), task_id@),
        decreases artifact_entries@.len() - j,
    {
        proof {
            assert(artifact_entries@.take(j + 1).drop_last() =~= artifact_entries@.take(j as int));
        }
        let e = &artifact_entries[j];
        if artifact_belongs(e.0.as_str(), task_id.as_str()) {
            let ghost before = artifacts@;
            artifacts.push(e.1.clone());
            proof {
                assert(string_views(artifacts@) =~= string_views(before).push(e.1@));
            }
        }
        j = j + 1;
    }
    proof {
        assert(artifact_entries@.take(artifact_entries@.len() as int) =~= artifact_entries@);
    }
    let (status_path, status_exists) = status;
    let (logs_path, logs_exists) = logs;
    let c = CleanCandidate {
        task_id,
        result,
        status: if status_exists {
            Some(status_path)
        } else {
            None
        },
        commands: cmds,
        logs: if logs_exists {
            Some(logs_path)
        } else {
            None
        },
        artifacts,
    };
    proof {
        assert(c.commands@ =~= (if commands.0.1 {
            seq![commands.0.0]
        } else {
            Seq::empty()
        }) + (if commands.1.1 {
            seq![commands.1.0]
        } else {
            Seq::empty()
        }));
    }
    c
}

/// The files purging a candidate deletes (when they are files): its result,
/// its status file, its command files and its artifacts, in that order. Its
/// log directory goes separately.
pub fn purge_files(c: &CleanCandidate) -> (r: Vec<String>)
    ensures
        r@ == seq![c.result] + (match c.status {
            Some(s) => seq![s],
            None => Seq::empty(),
        }) + c.commands@ + c.artifacts@,
{
    let mut r: Vec<String> = Vec::new();
    r.push(c.result.clone());
    if let Some(s) = &c.status {
        r.push(s.clone());
    }
    let ghost head = r@;
    let mut i: usize = 0;
    while i < c.commands.len()
        invariant
            i <= c.commands@.len(),
            r@ == head + c.commands@.take(i as int),
        decreases c.commands@.len() - i,
    {
        r.push(c.commands[i].clone());
        i = i + 1;
        proof {
            assert(r@ =~= head + c.commands@.take(i as int));
        }
    }
    proof {
        assert(c.commands@.take(c.commands@.len() as int) =~= c.commands@);
    }
    let ghost mid = r@;
    let mut k: usize = 0;
    while k < c.artifacts.len()
        invariant
            k <= c.artifacts@.len(),
            r@ == mid + c.artifacts@.take(k as int),
        decreases c.artifacts@.len() - k,
    {
        r.push(c.artifacts[k].clone());
        k = k + 1;
        proof {
            assert(r@ =~= mid + c.artifacts@.take(k as int));
        }
    }
    proof {
        assert(c.artifacts@.take(c.artifacts@.len() as int) =~= c.artifacts@);
        assert(r@ =~= seq![c.result] + (match c.status {
            Some(s) => seq![s],
            None => Seq::empty(),
        }) + c.commands@ + c.artifacts@);
    }
    r
}

/// The number of files and directories a candidate accounts for: its
/// result, status file, command files, artifacts and log directory.
pub fn candidate_file_count(c: &CleanCandidate) -> (n: usize)
    requires
        c.commands@.len() + c.artifacts@.len() + 3 <= usize::MAX,
    ensures
        n == 1 + (if c.status is Some { 1int } else { 0int }) + c.commands@.len()
            + c.artifacts@.len() + (if c.logs is Some { 1int } else { 0int }),
{
    let mut n: usize = 1;
    if c.status.is_some() {
        n = n + 1;
    }
    n = n + c.commands.len() + c.artifacts.len();
    if c.logs.is_some() {
        n = n + 1;
    }
    n
}

} // verus!
