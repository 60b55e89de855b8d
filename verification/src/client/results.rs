//! Results as a client reads them: the text form of a result, and where a
//! task's artifact may be read from (never outside the artifacts directory).
use vstd::prelude::*;

use crate::base::error::BifrostError;
use crate::base::models::{status_text, TaskResult};
use crate::interop::clock::elapsed_secs;
use crate::interop::ids::{id_text, id_to_text};
use crate::paths::{joined, path_join, path_starts_with, starts_with_path};
use crate::text::{self, cat, decimal_text, has_char, seq_contains, signed_text};

verus! {

/// The forms a result can be shown in.
#[derive(Clone, Copy, Debug, PartialEq, Eq, Structural)]
pub enum ResultFormat {
    /// JSON (the default)
    Json,
    /// YAML
    Yaml,
    /// Human-readable text
    Text,
}

/// One line per artifact.
pub open spec fn artifact_lines(a: Seq<String>) -> Seq<char>
    decreases a.len(),
{
    if a.len() == 0 {
        Seq::empty()
    } else {
        artifact_lines(a.drop_last()) + a.last()@ + "\n"@
    }
}

/// The first lines of a result's text: identity, status, duration, retries.
pub open spec fn result_head(r: TaskResult) -> Seq<char> {
    "Task ID: "@ + id_text(r.task_id) + "\n"@ + "Status: "@ + status_text(r.status) + "\n"@
        + "Duration: "@ + signed_text(elapsed_secs(r.start_time, r.end_time)) + " seconds\n"@
        + "Retries: "@ + decimal_text(r.retries_used as nat) + "\n"@
}

/// The exit-code line, when there is an exit code.
pub open spec fn exit_code_part(r: TaskResult) -> Seq<char> {
    match r.output.exit_code {
        Some(c) => "Exit Code: "@ + signed_text(c as int) + "\n"@,
        None => Seq::empty(),
    }
}

/// A titled section, when its body is not empty.
pub open spec fn section(title: Seq<char>, body: Seq<char>) -> Seq<char> {
    if body.len() > 0 {
        title + body + "\n"@
    } else {
        Seq::empty()
    }
}

/// The artifacts section, when there are artifacts.
pub open spec fn artifacts_part(r: TaskResult) -> Seq<char> {
    if r.artifacts@.len() > 0 {
        "\n--- ARTIFACTS ---\n"@ + artifact_lines(r.artifacts@)
    } else {
        Seq::empty()
    }
}

/// The error line, when there is an error.
pub open spec fn error_part(r: TaskResult) -> Seq<char> {
    match r.error_message {
        Some(e) => "\nError: "@ + e@ + "\n"@,
        None => Seq::empty(),
    }
}

/// The human-readable text of a result: identity, status, duration,
/// retries, exit code, the captured output, the artifacts and the error,
/// each part only when there is something to show.
pub open spec fn result_text(r: TaskResult) -> Seq<char> {
    result_head(r) + exit_code_part(r) + section("\n--- STDOUT ---\n"@, r.output.stdout@) + section(
        "\n--- STDERR ---\n"@,
        r.output.stderr@,
    ) + artifacts_part(r) + error_part(r)
}

fn head_text(result: &TaskResult) -> (s: String)
    requires
        result.wf(),
    ensures
        s@ == result_head(*result),
{
    let mut out = "Task ID: ".to_owned();
    out.append(id_to_text(result.task_id).as_str());
    out.append("\n");
    out.append("Status: ");
    out.append(result.status.display_text().as_str());
    out.append("\n");
    out.append("Duration: ");
    out.append(text::i64_text(result.duration_secs()).as_str());
    out.append(" seconds\n");
    out.append("Retries: ");
    out.append(text::u64_text(result.retries_used as u64).as_str());
    out.append("\n");
    assert(out@ =~= result_head(*result));
    out
}

fn exit_code_text(result: &TaskResult) -> (s: String)
    ensures
        s@ == exit_code_part(*result),
{
    match result.output.exit_code {
        Some(code) => {
            let mut out = "Exit Code: ".to_owned();
            out.append(text::i64_text(code as i64).as_str());
            out.append("\n");
            out
        },
        None => String::new(),
    }
}

fn section_text(title: &str, body: &str) -> (s: String)
    ensures
        s@ == section(title@, body@),
{
    if body.unicode_len() > 0 {
        let mut out = cat(title, body);
        out.append("\n");
        out
    } else {
        String::new()
    }
}

fn artifacts_text(result: &TaskResult) -> (s: String)
    ensures
        s@ == artifacts_part(*result),
{
    if result.artifacts.len() == 0 {
        return String::new();
    }
    let mut out = "\n--- ARTIFACTS ---\n".to_owned();
    let ghost start = out@;
    let mut i: usize = 0;
    while i < result.artifacts.len()
        invariant
            i <= result.artifacts@.len(),
            out@ == start + artifact_lines(result.artifacts@.take(i as int)),
        decreases result.artifacts@.len() - i,
    {
        proof {
            assert(result.artifacts@.take(i + 1).drop_last() =~= result.artifacts@.take(i as int));
        }
        out.append(result.artifacts[i].as_str());
        out.append("\n");
        i = i + 1;
        proof {
            assert(out@ =~= start + artifact_lines(result.artifacts@.take(i as int)));
        }
    }
    proof {
        assert(result.artifacts@.take(result.artifacts@.len() as int) =~= result.artifacts@);
    }
    out
}

fn error_line(result: &TaskResult) -> (s: String)
    ensures
        s@ == error_part(*result),
{
    match &result.error_message {
        Some(e) => {
            let mut out = cat("\nError: ", e.as_str());
            out.append("\n");
            out
        },
        None => String::new(),
    }
}

/// The human-readable text of a result.
pub fn format_result_text(result: &TaskResult) -> (s: String)
    requires
        result.wf(),
    ensures
        s@ == result_text(*result),
{
    let mut out = head_text(result);
    out.append(exit_code_text(result).as_str());
    out.append(section_text("\n--- STDOUT ---\n", result.output.stdout.as_str()).as_str());
    out.append(section_text("\n--- STDERR ---\n", result.output.stderr.as_str()).as_str());
    out.append(artifacts_text(result).as_str());
    out.append(error_line(result).as_str());
    out
}

/// The message an invalid artifact name is refused with.
pub open spec fn invalid_artifact_message() -> Seq<char> {
    "Invalid artifact name: contains path separators, traversal sequences, or null bytes"@
}

/// Whether an artifact name names a file of the artifacts directory
/// itself: not empty, and without `/`, `\`, `..` or a NUL.
pub open spec fn valid_artifact_name(n: Seq<char>) -> bool {
    &&& n.len() > 0
    &&& !has_char(n, '/')
    &&& !has_char(n, '\\')
    &&& !seq_contains(n, ".."@)
    &&& !has_char(n, '\0')
}

/// Where artifact `artifact_name` of a task lies:
/// `{shared}/artifacts/{task_id}_{artifact_name}`; names that could leave
/// that directory are refused.
pub fn get_artifact_path(shared_storage: &str, task_id: u128, artifact_name: &str) -> (r: Result<
    String,
    BifrostError,
>)
    ensures
        valid_artifact_name(artifact_name@) ==> (r matches Ok(p) && p@ == joined(
            joined(shared_storage@, "artifacts"@),
            id_text(task_id) + seq!['_'] + artifact_name@,
        )),
        !valid_artifact_name(artifact_name@) ==> (r matches Err(BifrostError::ConfigInvalid(m))
            && m@ == invalid_artifact_message()),
{
    if text::has_char_exec(artifact_name, '/') || text::has_char_exec(artifact_name, '\\')
        || text::contains(artifact_name, "..") || text::has_char_exec(artifact_name, '\0')
        || artifact_name.unicode_len() == 0 {
        return Err(
            BifrostError::ConfigInvalid(
                "Invalid artifact name: contains path separators, traversal sequences, or null bytes".to_owned(),
            ),
        );
    }
    proof {
        reveal_strlit("_");
    }
    let dir = path_join(shared_storage, "artifacts");
    let mut name = id_to_text(task_id);
    name.append("_");
    name.append(artifact_name);
    Ok(path_join(dir.as_str(), name.as_str()))
}

/// The error for an artifact that does not exist.
pub fn missing_artifact(artifact_name: &str) -> (e: BifrostError)
    ensures
        e matches BifrostError::IoError(m) && m@ == "Artifact not found: "@ + artifact_name@,
{
    BifrostError::IoError(cat("Artifact not found: ", artifact_name))
}

/// Checks that the resolved artifact path lies inside the resolved
/// artifacts directory.
pub fn check_contained(canonical_artifact: &str, canonical_dir: &str) -> (r: Result<(), BifrostError>)
    ensures
        path_starts_with(canonical_artifact@, canonical_dir@) ==> r is Ok,
        !path_starts_with(canonical_artifact@, canonical_dir@) ==> (r matches Err(
            BifrostError::ConfigInvalid(m),
        ) && m@ == "Artifact path traversal detected"@),
{
    if starts_with_path(canonical_artifact, canonical_dir) {
        Ok(())
    } else {
        Err(BifrostError::ConfigInvalid("Artifact path traversal detected".to_owned()))
    }
}

} // verus!
