//! What the task history database stores and asks: the labels of kinds and
//! states, the bounded output kept per task, the stored duration, the name
//! an artifact is filed under, and the text and parameters of the history
//! query. Running SQL is the caller's.
use vstd::prelude::*;

use crate::base::models::{status_text, task_type_text, TaskResult, TaskStatus, TaskType};
use crate::interop::clock::elapsed_secs;
use crate::paths::{file_name, file_name_of};
use crate::text::{self, cat, decimal_text};
use vstd::utf8::{decode_utf8, encode_utf8, is_char_boundary};

verus! {

broadcast use vstd::utf8::encode_utf8_valid_utf8, vstd::utf8::encode_utf8_decode_utf8;

/// Characters of stdout and stderr kept per task.
pub const MAX_STORED_OUTPUT: usize = 100000;

/// `s` cut to its first `max_chars` characters with `...` appended when it
/// has more; `s` itself otherwise.
pub fn truncate(s: &str, max_chars: usize) -> (r: String)
    ensures
        s@.len() <= max_chars ==> r@ == s@,
        s@.len() > max_chars ==> r@ == s@.subrange(0, max_chars as int) + "..."@,
{
    let n = s.unicode_len();
    if n > max_chars {
        proof {
            reveal_strlit("...");
        }
        text::cat(s.substring_char(0, max_chars), "...")
    } else {
        s.to_owned()
    }
}

/// The duration stored for a result, in milliseconds: its whole seconds
/// times a thousand.
pub fn stored_duration_ms(result: &TaskResult) -> (ms: i64)
    requires
        result.wf(),
    ensures
        ms == elapsed_secs(result.start_time, result.end_time) * 1000,
{
    let secs = result.duration_secs();
    assert(-0x1000_0000_0000 <= secs <= 0x1000_0000_0000) by {
        assert(-0x1000_0000_0000 * 1_000_000_000 <= result.end_time.total_nanos()
            - result.start_time.total_nanos() <= 0x1000_0000_0000 * 1_000_000_000);
    }
    secs * 1000
}

/// The name an artifact is filed under: its file name, or the whole path
/// when it has none.
pub fn artifact_record_name(artifact: &str) -> (n: String)
    ensures
        n@ == match file_name_of(artifact@) {
            Some(f) => f,
            None => artifact@,
        },
{
    match file_name(artifact) {
        Some(f) => f,
        None => artifact.to_owned(),
    }
}

/// A row of the task history listing.
#[derive(Clone, Debug)]
pub struct TaskHistoryRecord {
    pub task_id: String,
    pub command: String,
    pub task_type: String,
    pub status: String,
    pub exit_code: Option<i32>,
    pub error_message: Option<String>,
    pub created_at: Option<String>,
    pub started_at: Option<String>,
    pub completed_at: Option<String>,
    pub duration_ms: Option<i64>,
    pub retries_used: Option<i64>,
    pub batch_id: Option<String>,
    pub task_name: Option<String>,
}

/// A stored artifact of a task: its file name, its path and its size.
#[derive(Clone, Debug)]
pub struct ArtifactRecord {
    pub name: String,
    pub path: String,
    pub size_bytes: Option<i64>,
}

/// A parameter of a query.
#[derive(Clone, Debug)]
pub enum SqlParam {
    Text(String),
    Int(i64),
}

/// A query: its SQL text and its numbered parameters.
#[derive(Clone, Debug)]
pub struct HistoryQuery {
    pub sql: String,
    pub params: Vec<SqlParam>,
}

/// The start of the history query.
pub open spec fn history_select() -> Seq<char> {
    "SELECT task_id, command, task_type, status, exit_code,
                    error_message, created_at, started_at, completed_at,
                    duration_ms, retries_used, batch_id, task_name
             FROM tasks WHERE 1=1"@
}

/// The parameter placeholder `?n`.
pub open spec fn placeholder(n: nat) -> Seq<char> {
    seq!['?'] + decimal_text(n)
}

/// The text of the history query with the optional filters: a status
/// condition, a task type condition, newest first, then limit and offset,
/// the parameters numbered in that order.
pub open spec fn history_sql(has_status: bool, has_type: bool) -> Seq<char> {
    let n0: nat = 1;
    let n1: nat = if has_status { 2 } else { 1 };
    let n2: nat = if has_type { n1 + 1 } else { n1 };
    history_select() + (if has_status {
        " AND status = "@ + placeholder(n0)
    } else {
        Seq::empty()
    }) + (if has_type {
        " AND task_type = "@ + placeholder(n1)
    } else {
        Seq::empty()
    }) + " ORDER BY created_at DESC"@ + " LIMIT "@ + placeholder(n2) + " OFFSET "@ + placeholder(n2 + 1)
}

/// The text of a history query with its placeholders numbered as its
/// parameters are bound: the status filter's value is parameter 1, the
/// type filter's value the next one, and `LIMIT` and `OFFSET` the two
/// after the filters.
pub open spec fn numbered_history_sql(has_status: bool, has_type: bool) -> Seq<char> {
    let filters: nat = (if has_status { 1nat } else { 0nat }) + (if has_type { 1nat } else { 0nat });
    history_select() + (if has_status {
        " AND status = ?"@ + decimal_text(1)
    } else {
        Seq::empty()
    }) + (if has_type {
        " AND task_type = ?"@ + decimal_text(if has_status { 2 } else { 1 })
    } else {
        Seq::empty()
    }) + " ORDER BY created_at DESC LIMIT ?"@ + decimal_text(filters + 1) + " OFFSET ?"@
        + decimal_text(filters + 2)
}

/// Every placeholder of a history query names the parameter bound at its
/// position: `?1` the status filter's value, the type filter's value the
/// next number (`?2` after a status filter), and the limit and offset the
/// two after the filters.
pub proof fn lemma_history_placeholders_follow_parameters(has_status: bool, has_type: bool)
    ensures
        history_sql(has_status, has_type) == numbered_history_sql(has_status, has_type),
{
    reveal_strlit(" AND status = ");
    reveal_strlit(" AND status = ?");
    reveal_strlit(" AND task_type = ");
    reveal_strlit(" AND task_type = ?");
    reveal_strlit(" ORDER BY created_at DESC");
    reveal_strlit(" LIMIT ");
    reveal_strlit(" ORDER BY created_at DESC LIMIT ?");
    reveal_strlit(" OFFSET ");
    reveal_strlit(" OFFSET ?");
    assert(" AND status = "@ + seq!['?'] =~= " AND status = ?"@);
    assert(" AND task_type = "@ + seq!['?'] =~= " AND task_type = ?"@);
    assert(" ORDER BY created_at DESC"@ + " LIMIT "@ + seq!['?'] =~= " ORDER BY created_at DESC LIMIT ?"@);
    assert(" OFFSET "@ + seq!['?'] =~= " OFFSET ?"@);
    let a = history_sql(has_status, has_type);
    let b = numbered_history_sql(has_status, has_type);
    assert(a =~= b);
}

fn placeholder_text(n: u64) -> (s: String)
    ensures
        s@ == placeholder(n as nat),
{
    proof {
        reveal_strlit("?");
    }
    cat("?", text::u64_text(n).as_str())
}

/// The history query with optional status and task type filters, newest
/// first, with `limit` and `offset`.
pub fn history_query(
    status_filter: Option<TaskStatus>,
    task_type_filter: Option<TaskType>,
    limit: i64,
    offset: i64,
) -> (q: HistoryQuery)
    ensures
        q.sql@ == history_sql(status_filter is Some, task_type_filter is Some),
        q.sql@ == numbered_history_sql(status_filter is Some, task_type_filter is Some),
        q.params@.len() == (if status_filter is Some { 1int } else { 0int }) + (if task_type_filter is Some { 1int } else { 0int }) + 2,
        status_filter matches Some(s) ==> (q.params@[0] matches SqlParam::Text(t) && t@ == status_text(s)),
        task_type_filter matches Some(tt) ==> (q.params@[q.params@.len() - 3] matches SqlParam::Text(t) && t@ == task_type_text(tt)),
        q.params@[q.params@.len() - 2] matches SqlParam::Int(v) && v == limit,
        q.params@[q.params@.len() - 1] matches SqlParam::Int(v) && v == offset,
{
    let mut sql = "SELECT task_id, command, task_type, status, exit_code,
                    error_message, created_at, started_at, completed_at,
                    duration_ms, retries_used, batch_id, task_name
             FROM tasks WHERE 1=1".to_owned();
    let mut params: Vec<SqlParam> = Vec::new();
    if let Some(s) = status_filter {
        sql.append(" AND status = ");
        sql.append(placeholder_text(1).as_str());
        params.push(SqlParam::Text(s.display_text()));
    }
    let ghost after_status = sql@;
    if let Some(t) = task_type_filter {
        sql.append(" AND task_type = ");
        sql.append(placeholder_text((params.len() + 1) as u64).as_str());
        params.push(SqlParam::Text(t.display_text()));
    }
    let ghost after_type = sql@;
    sql.append(" ORDER BY created_at DESC");
    sql.append(" LIMIT ");
    sql.append(placeholder_text((params.len() + 1) as u64).as_str());
    params.push(SqlParam::Int(limit));
    sql.append(" OFFSET ");
    sql.append(placeholder_text((params.len() + 1) as u64).as_str());
    params.push(SqlParam::Int(offset));
    proof {
        assert(sql@ =~= history_sql(status_filter is Some, task_type_filter is Some));
        lemma_history_placeholders_follow_parameters(status_filter is Some, task_type_filter is Some);
    }
    HistoryQuery { sql, params }
}

} // verus!
