use bifrost::base::error::BifrostError;
use bifrost::base::job::{JobDefinition, JobResult, JobTask, JobTaskResult};
use bifrost::client::launcher::next_job_task;
use bifrost::base::models::{TaskItem, TaskOutput, TaskResult, TaskStatus, TaskType};
use bifrost::base::string_map::StringMap;
use bifrost::client::clean::{
    artifact_belongs, candidate_file_count, collect_for_task, command_files, finished_task_id,
    logs_dir, old_enough, purge_files, status_file,
};
use bifrost::client::launcher::{error_record, fetched_record, job_task_to_task, poll_step, timeout_record, PollStep};
use bifrost::client::mcp::{
    health, request_task, request_task_id, task_type_for, tool_error, StatusRequest, SubmitRequest,
};
use bifrost::client::pytest::{build_pytest_command, create_pytest_task};
use bifrost::client::results::{check_contained, format_result_text, get_artifact_path, missing_artifact};
use bifrost::client::submit::{batch_task, mark_batch_running, record_submission, start_batch_progress, submission_task};
use bifrost::interop::clock::Timestamp;
use bifrost::interop::durations::Span;

fn create_test_result(task_id: u128) -> TaskResult {
    let t = Timestamp { secs: 1_000, nanos: 0 };
    TaskResult {
        task_id,
        status: TaskStatus::Completed,
        output: TaskOutput { stdout: "test output".to_string(), stderr: "".to_string(), exit_code: Some(0) },
        command: "echo".to_string(),
        start_time: t,
        end_time: t,
        duration_ms: 0,
        retries_used: 0,
        artifacts: vec!["report.json".to_string()],
        error_message: None,
    }
}

#[test]
fn test_build_pytest_command() {
    let cmd = build_pytest_command("tests/");
    assert!(cmd.contains("pytest tests/"));
    assert!(cmd.contains("--json-report"));
    assert!(cmd.contains("--json-report-file=report.json"));
    assert!(cmd.contains("-v"));
    assert_eq!(cmd, "pytest tests/ --json-report --json-report-file=report.json -v");
}

#[test]
fn test_create_pytest_task() {
    let task = create_pytest_task("tests/unit/", 10, 600, None);
    assert_eq!(task.task_type, TaskType::Pytest);
    assert_eq!(task.priority, 10);
    assert_eq!(task.timeout, 600);
    assert!(task.command.contains("pytest tests/unit/"));
    assert!(task.artifacts_expected.contains(&"report.json".to_string()));
}

#[test]
fn test_create_pytest_task_with_working_dir() {
    let task = create_pytest_task("tests/", 5, 300, Some("/workspace/project".to_string()));
    assert_eq!(task.working_dir, "/workspace/project");
}

#[test]
fn test_format_result_text() {
    let task_id = 0x550e8400_e29b_41d4_a716_446655440000u128;
    let result = create_test_result(task_id);
    let text = format_result_text(&result);
    assert!(text.contains(&uuid::Uuid::from_u128(task_id).to_string()));
    assert!(text.contains("Completed"));
    assert!(text.contains("test output"));
    assert!(text.contains("STDOUT"));
    assert!(text.contains("report.json"));
    assert!(text.contains("ARTIFACTS"));
    assert_eq!(
        text,
        "Task ID: 550e8400-e29b-41d4-a716-446655440000\nStatus: Completed\nDuration: 0 seconds\nRetries: 0\nExit Code: 0\n\n--- STDOUT ---\ntest output\n\n--- ARTIFACTS ---\nreport.json\n"
    );
}

#[test]
fn test_result_formatting() {
    let mut result = create_test_result(1);
    result.output.stderr = "warn".to_string();
    result.error_message = Some("boom".to_string());
    result.output.exit_code = None;
    let text = format_result_text(&result);
    assert!(text.contains("\n--- STDERR ---\nwarn\n"));
    assert!(text.ends_with("\nError: boom\n"));
    assert!(!text.contains("Exit Code"));
}

#[test]
fn artifact_names_cannot_escape() {
    let id = 0x550e8400_e29b_41d4_a716_446655440000u128;
    assert_eq!(
        get_artifact_path("/s", id, "report.json").unwrap(),
        "/s/artifacts/550e8400-e29b-41d4-a716-446655440000_report.json"
    );
    for bad in ["../x", "a/b", "a\\b", "", "a\0b", ".."] {
        assert!(matches!(get_artifact_path("/s", id, bad), Err(BifrostError::ConfigInvalid(_))));
    }
    assert!(check_contained("/s/artifacts/x", "/s/artifacts").is_ok());
    assert!(check_contained("/etc/passwd", "/s/artifacts").is_err());
    assert!(matches!(missing_artifact("r.json"), BifrostError::IoError(m) if m == "Artifact not found: r.json"));
}

#[test]
fn test_submit_task_with_working_dir() {
    let t = submission_task("pytest tests/".to_string(), TaskType::Pytest, 5, 600, Some("/workspace".to_string()));
    assert_eq!(t.working_dir, "/workspace");
    assert_eq!(t.priority, 5);
    assert_eq!(t.timeout, 600);
    let t = submission_task("echo hello".to_string(), TaskType::Shell, 10, 300, None);
    assert_eq!(t.working_dir, ".");
}

#[test]
fn test_batch_manifest_submission() {
    let mut env = StringMap::new();
    env.insert("K".to_string(), "V".to_string());
    let item = TaskItem {
        task_name: "t1".to_string(),
        description: "d".to_string(),
        command: "echo 1".to_string(),
        task_type: TaskType::Shell,
        timeout: 60,
        priority: 2,
        working_dir: None,
        env_vars: env,
        artifacts_expected: vec![],
        metadata: StringMap::new(),
    };
    let t = batch_task(&item, 77);
    assert_eq!(t.batch_id, Some(77));
    assert_eq!(t.task_name.as_deref(), Some("t1"));
    assert_eq!(t.working_dir, ".");
    assert_eq!(t.env_vars.get("K"), Some("V".to_string()));
    let now = Timestamp { secs: 1, nanos: 0 };
    let mut p = start_batch_progress(77, "/m.json".to_string(), 1, now);
    record_submission(&mut p, 0, t.task_id, "t1".to_string(), Timestamp { secs: 2, nanos: 0 });
    assert_eq!(p.current_index, 1);
    mark_batch_running(&mut p, Timestamp { secs: 3, nanos: 0 });
    assert_eq!(p.status, bifrost::base::models::BatchStatus::Running);
    assert_eq!(p.submitted_tasks.len(), 1);
}

fn job_task() -> JobTask {
    let mut env = StringMap::new();
    env.insert("MY_VAR".to_string(), "job-env-ok".to_string());
    JobTask {
        name: "check-env".to_string(),
        command: "pwd".to_string(),
        timeout: 30,
        priority: 5,
        working_dir: Some("/tmp".to_string()),
        env_vars: env,
        artifacts: vec!["a.txt".to_string()],
        ignore_failure: false,
        metadata: StringMap::new(),
    }
}

#[test]
fn test_launch_job_passes_working_dir_and_env() {
    let t = job_task_to_task(&job_task());
    assert_eq!(t.working_dir, "/tmp");
    assert_eq!(t.env_vars.get("MY_VAR"), Some("job-env-ok".to_string()));
    assert_eq!(t.priority, 5);
    assert_eq!(t.timeout, 30);
    assert_eq!(t.retry_count, 0);
    assert_eq!(t.task_type, TaskType::Custom);
}

#[test]
fn launcher_poll_decisions() {
    let e = Span::from_secs(5);
    assert!(matches!(poll_step(e, 30, &Ok(TaskStatus::Running)), PollStep::Wait));
    assert!(matches!(poll_step(e, 30, &Ok(TaskStatus::Completed)), PollStep::Collect));
    assert!(matches!(poll_step(e, 30, &Err(BifrostError::TaskNotFound(1))), PollStep::Wait));
    match poll_step(e, 30, &Err(BifrostError::JsonError("eof".to_string()))) {
        PollStep::Abort(m) => assert_eq!(m, "query: JSON parse error: eof"),
        _ => panic!("expected abort"),
    }
    assert!(matches!(poll_step(Span { secs: 60, nanos: 1 }, 30, &Ok(TaskStatus::Running)), PollStep::GiveUp));
    assert!(matches!(poll_step(Span::from_secs(60), 30, &Ok(TaskStatus::Running)), PollStep::Wait));
    let ti = job_task();
    let r = timeout_record(&ti, 9, Span::from_secs(61));
    assert_eq!(r.status, "Timeout");
    assert_eq!(r.error_message.as_deref(), Some("timeout 30s"));
    assert_eq!(r.duration_secs, 61);
    assert_eq!(error_record(&ti, 9, e, "query: x".to_string()).status, "Error");
    let r = fetched_record(&ti, 9, Err(BifrostError::TaskNotFound(9)), e);
    assert_eq!(r.status, "Completed");
    assert_eq!(r.artifacts, vec!["a.txt".to_string()]);
    let r = fetched_record(&ti, 9, Ok(create_test_result(9)), e);
    assert_eq!(r.stdout, "test output");
    assert_eq!(r.exit_code, Some(0));
}

#[test]
fn test_status_invalid_uuid() {
    let err = request_task_id(&StatusRequest { task_id: "not-a-uuid".to_string() }).unwrap_err();
    assert!(err.contains("invalid task_id"));
    assert_eq!(
        request_task_id(&StatusRequest { task_id: "550e8400-e29b-41d4-a716-446655440000".to_string() }).unwrap(),
        0x550e8400_e29b_41d4_a716_446655440000u128
    );
}

#[test]
fn test_health_no_heartbeat() {
    let h = health(None, Some(Span::from_secs(180)));
    assert!(!h.alive);
    assert_eq!(h.heartbeat_timeout_secs, 180);
}

#[test]
fn test_health_fresh_heartbeat() {
    assert!(health(Some(0), Some(Span::from_secs(180))).alive);
    assert!(!health(Some(180), None).alive);
    assert!(health(Some(179), None).alive);
}

#[test]
fn test_submit_returns_task_id() {
    let t = request_task(SubmitRequest {
        command: "echo mcp-test".to_string(),
        timeout: Some(30),
        priority: None,
        working_dir: None,
    });
    assert_eq!(t.task_type, TaskType::Shell);
    assert_eq!(t.timeout, 30);
    assert_eq!(t.priority, 0);
    assert_eq!(task_type_for("  pytest -x"), TaskType::Pytest);
    assert_eq!(task_type_for("echo pytest"), TaskType::Shell);
    assert_eq!(
        tool_error("status query failed", &BifrostError::TaskNotFound(0)),
        "status query failed: Task not found: 00000000-0000-0000-0000-000000000000"
    );
}

#[test]
fn test_scan_only_finished_old_tasks() {
    assert_eq!(
        finished_task_id("aaaaaaaa-aaaa-aaaa-aaaa-aaaaaaaaaaaa_result.json").as_deref(),
        Some("aaaaaaaa-aaaa-aaaa-aaaa-aaaaaaaaaaaa")
    );
    assert_eq!(finished_task_id("short_result.json"), None);
    assert_eq!(finished_task_id("aaaaaaaa-aaaa-aaaa-aaaa-aaaaaaaaaaaa.json"), None);
    assert!(old_enough(Span::from_secs(10 * 86400), 7));
    assert!(!old_enough(Span::from_secs(86400), 7));
    assert!(old_enough(Span::from_secs(0), 0));
}

#[test]
fn test_purge_removes_all_files_keeps_protected() {
    let a = "aaaaaaaa-aaaa-aaaa-aaaa-aaaaaaaaaaaa";
    let s = "/s";
    let (json, lock) = command_files(s, a);
    assert_eq!(json, "/s/commands/aaaaaaaa-aaaa-aaaa-aaaa-aaaaaaaaaaaa.json");
    let entries = vec![
        (format!("{}_report.json", a), format!("/s/artifacts/{}_report.json", a)),
        ("heartbeat.json".to_string(), "/s/artifacts/heartbeat.json".to_string()),
    ];
    let c = collect_for_task(
        a.to_string(),
        format!("/s/results/{}_result.json", a),
        (status_file(s, a), true),
        ((json, true), (lock, false)),
        (logs_dir(s, a), true),
        &entries,
    );
    assert!(c.status.is_some());
    assert_eq!(c.commands.len(), 1);
    assert!(c.logs.is_some());
    assert_eq!(c.artifacts, vec![format!("/s/artifacts/{}_report.json", a)]);
    assert_eq!(candidate_file_count(&c), 5);
    let files = purge_files(&c);
    assert_eq!(files.len(), 4);
    assert!(!files.iter().any(|f| f.ends_with("heartbeat.json") || f.ends_with("settings.json")));
    assert!(artifact_belongs("aaaa_x", "aaaa"));
}

#[test]
fn new_batch_starts_submitting_with_fresh_id() {
    let a = bifrost::client::submit::new_batch_progress("m.json".to_string(), 4);
    let b = bifrost::client::submit::new_batch_progress("m.json".to_string(), 4);
    assert_ne!(a.batch_id, b.batch_id);
    assert_eq!(a.total_tasks, 4);
    assert_eq!(a.current_index, 0);
    assert!(a.submitted_tasks.is_empty());
    assert_eq!(a.status, bifrost::base::models::BatchStatus::Submitting);
    assert_eq!(a.created_at, a.updated_at);
}

#[test]
fn job_tasks_are_taken_in_order_once_each() {
    let job = JobDefinition { name: "j".to_string(), description: None, tasks: vec![job_task(), job_task()] };
    let mut jr = JobResult::new("j".to_string(), 2);
    let mut order = Vec::new();
    while let Some(i) = next_job_task(&job, &jr) {
        order.push(i);
        jr.record_task(JobTaskResult {
            name: job.tasks[i].name.clone(),
            task_id: i as u128,
            exit_code: Some(0),
            status: "Completed".to_string(),
            stdout: String::new(),
            stderr: String::new(),
            duration_secs: 0,
            error_message: None,
            artifacts: vec![],
        });
    }
    assert_eq!(order, vec![0, 1]);
    let t = job_task_to_task(&job_task());
    assert!(t.artifacts_expected.is_empty());
    assert_eq!(t.metadata.len(), 0);
}
