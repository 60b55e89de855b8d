use bifrost::base::bridge::{create_bridge, BridgeChoice};
use bifrost::base::batch_tracker::{
    cleanup_cutoff, is_active_batch, is_expired, record_completion, BatchTracker,
};
use bifrost::base::config::{ClientConfig, ConfigError, DaemonConfig};
use bifrost::base::db::{artifact_record_name, history_query, stored_duration_ms, truncate, SqlParam};
use bifrost::base::error::{BifrostError, Result};
use bifrost::base::job::{default_timeout, JobResult, JobTaskResult};
use bifrost::base::lock::atomic_temp_path;
use bifrost::base::models::{
    BatchProgress, BatchStatus, Task, TaskOutput, TaskResult, TaskStatus, TaskType,
};
use bifrost::base::protocol::{
    parse_status_string, removable_names, select_removable, select_task_file, status_response, status_source_of,
    Protocol, StatusSource,
};
use bifrost::base::settings::{
    config_dir, duration_text, parse_duration_str, settings_or_defaults, BifrostSettings, ClientSection,
    DaemonSection, SettingsError, SshSection, Transport,
};
use bifrost::base::ssh_bridge::{
    age_from_output, file_or_absent, listing_documents, parent_dir, remote_outcome, sh_quote, task_text_or_missing,
    write_command, SshBridge,
};
use bifrost::base::string_map::StringMap;
use bifrost::interop::clock::Timestamp;
use bifrost::interop::durations::Span;

fn result_with(status: TaskStatus, start: Timestamp, end: Timestamp, duration_ms: i64) -> TaskResult {
    TaskResult {
        task_id: 0x550e8400_e29b_41d4_a716_446655440000,
        status,
        output: TaskOutput { stdout: "test output".to_string(), stderr: String::new(), exit_code: Some(0) },
        command: "echo".to_string(),
        start_time: start,
        end_time: end,
        duration_ms,
        retries_used: 0,
        artifacts: vec!["report.json".to_string()],
        error_message: None,
    }
}

#[test]
fn test_result_type() {
    fn returns_result() -> Result<String> {
        Ok("success".to_string())
    }
    assert!(returns_result().is_ok());
}

#[test]
fn test_error_display() {
    let error = BifrostError::TaskNotFound(uuid::Uuid::parse_str("550e8400-e29b-41d4-a716-446655440000").unwrap().as_u128());
    assert!(error.message().contains("Task not found"));
    assert_eq!(error.message(), "Task not found: 550e8400-e29b-41d4-a716-446655440000");
}

#[test]
fn test_bifrost_error_serialization_error() {
    let error = BifrostError::SerializationError("JSON parse failed".to_string());
    assert!(error.message().contains("Serialization error"));
}

#[test]
fn test_bifrost_error_config_invalid() {
    let error = BifrostError::ConfigInvalid("Invalid path".to_string());
    assert!(error.message().contains("Invalid configuration"));
}

#[test]
fn error_messages_of_each_kind() {
    assert_eq!(BifrostError::TaskTimeout(30).message(), "Task timeout after 30 seconds");
    assert_eq!(
        BifrostError::InvalidStatusTransition { from: "Pending".to_string(), to: "Done".to_string() }.message(),
        "Invalid status transition from Pending to Done"
    );
    assert_eq!(BifrostError::IoError("Access denied".to_string()).message(), "I/O error: Access denied");
    assert_eq!(BifrostError::JsonError("eof".to_string()).message(), "JSON parse error: eof");
}

#[test]
fn test_task_builder() {
    let task = Task::new("pytest tests/".to_string(), TaskType::Pytest)
        .with_priority(10)
        .with_timeout(600)
        .with_retry_count(5)
        .with_working_dir("/workspace".to_string())
        .with_env_var("DEBUG".to_string(), "1".to_string())
        .with_artifact("report.json".to_string());
    assert_eq!(task.command, "pytest tests/");
    assert_eq!(task.priority, 10);
    assert_eq!(task.timeout, 600);
    assert_eq!(task.retry_count, 5);
    assert_eq!(task.working_dir, "/workspace");
    assert_eq!(task.env_vars.get("DEBUG"), Some("1".to_string()));
    assert!(task.artifacts_expected.contains(&"report.json".to_string()));
}

#[test]
fn test_task_creation() {
    let task = Task::new("echo hello".to_string(), TaskType::Shell);
    assert_eq!(task.command, "echo hello");
    assert_eq!(task.task_type, TaskType::Shell);
    assert_eq!(task.priority, 0);
    assert_eq!(task.timeout, 300);
    assert_eq!(task.retry_count, 3);
    assert_eq!(task.working_dir, ".");
    assert_eq!(task.env_vars.len(), 0);
}

#[test]
fn test_task_with_multiple_env_vars() {
    let task = Task::new("env".to_string(), TaskType::Shell)
        .with_env_var("A".to_string(), "1".to_string())
        .with_env_var("B".to_string(), "2".to_string())
        .with_env_var("A".to_string(), "3".to_string());
    assert_eq!(task.env_vars.len(), 2);
    assert_eq!(task.env_vars.get("A"), Some("3".to_string()));
    assert_eq!(task.env_vars.get("B"), Some("2".to_string()));
}

#[test]
fn test_task_result_is_success() {
    let t = Timestamp { secs: 0, nanos: 0 };
    assert!(result_with(TaskStatus::Completed, t, t, 0).is_success());
    for s in [TaskStatus::Failed, TaskStatus::Timeout, TaskStatus::Cancelled, TaskStatus::Pending, TaskStatus::Running] {
        assert!(!result_with(s, t, t, 0).is_success());
    }
}

#[test]
fn test_task_result_duration_calculation() {
    let start = Timestamp { secs: 1_783_159_200, nanos: 0 };
    let end = Timestamp { secs: 1_783_159_530, nanos: 0 };
    let r = result_with(TaskStatus::Completed, start, end, 0);
    assert_eq!(r.duration_secs(), 330);
    assert_eq!(r.duration_ms(), 330_000);
    assert_eq!(result_with(TaskStatus::Completed, start, end, 5).duration_ms(), 5);
}

#[test]
fn status_names_round_trip() {
    for s in [TaskStatus::Pending, TaskStatus::Running, TaskStatus::Completed, TaskStatus::Failed, TaskStatus::Cancelled, TaskStatus::Timeout] {
        assert_eq!(parse_status_string(&s.display_text()), s);
    }
    assert_eq!(parse_status_string("SUCCESS"), TaskStatus::Completed);
    assert_eq!(parse_status_string("error"), TaskStatus::Failed);
    assert_eq!(parse_status_string("weird"), TaskStatus::Pending);
}

#[test]
fn protocol_layout() {
    let p = Protocol::new("/shared".to_string());
    assert_eq!(p.commands_dir(), "/shared/commands");
    assert_eq!(p.results_dir(), "/shared/results");
    assert_eq!(p.status_dir(), "/shared/status");
    assert_eq!(p.artifacts_dir(), "/shared/artifacts");
    assert_eq!(p.shared_storage(), "/shared");
    let id = 0x550e8400_e29b_41d4_a716_446655440000u128;
    assert_eq!(p.result_file_path(id), "/shared/results/550e8400-e29b-41d4-a716-446655440000_result.json");
    assert_eq!(p.status_file_path(id), "/shared/status/550e8400-e29b-41d4-a716-446655440000.json");
    let task = Task::with_identity(id, Timestamp { secs: 1_785_493_800, nanos: 0 }, "echo".to_string(), TaskType::Shell);
    assert_eq!(
        p.task_file_path(&task).unwrap(),
        "/shared/commands/20260731_103000_550e8400-e29b-41d4-a716-446655440000.json"
    );
}

#[test]
fn test_remove_task_keeps_processing_marker() {
    let id = 0x550e8400_e29b_41d4_a716_446655440000u128;
    let prefix = format!("20260824_120000_{}", uuid::Uuid::from_u128(id));
    let names = vec![
        format!("{}.json", prefix),
        format!("{}.lock", prefix),
        format!("{}.processing", prefix),
        "other.json".to_string(),
    ];
    let removed = select_removable(&names, id).unwrap();
    assert_eq!(removed, vec![format!("{}.json", prefix), format!("{}.lock", prefix)]);
    assert!(matches!(select_removable(&vec!["other.json".to_string()], id), Err(BifrostError::TaskNotFound(x)) if x == id));
}

#[test]
fn test_remove_command_file_keeps_processing_marker() {
    let id = 0x550e8400_e29b_41d4_a716_446655440000u128;
    let prefix = format!("20260824_120000_{}", uuid::Uuid::from_u128(id));
    let names = vec![format!("{}.json", prefix), format!("{}.processing", prefix)];
    assert_eq!(removable_names(&names, id), vec![format!("{}.json", prefix)]);
    assert!(removable_names(&vec![], id).is_empty());
}

#[test]
fn read_task_selects_the_json_file() {
    let id = 0x550e8400_e29b_41d4_a716_446655440000u128;
    let prefix = format!("20260824_120000_{}", uuid::Uuid::from_u128(id));
    let names = vec![format!("{}.lock", prefix), format!("{}.json", prefix)];
    assert_eq!(select_task_file(&names, id).unwrap(), 1);
    assert!(select_task_file(&vec![format!("{}.lock", prefix)], id).is_err());
}

#[test]
fn test_query_status_pending() {
    let r = status_response(9, StatusSource::Queued).unwrap();
    assert_eq!(r.status, TaskStatus::Pending);
    assert!(r.message.unwrap().contains("pending"));
}

#[test]
fn test_query_status_completed() {
    let start = Timestamp { secs: 100, nanos: 0 };
    let end = Timestamp { secs: 100, nanos: 5_000_000 };
    let r = status_response(9, StatusSource::Finished(result_with(TaskStatus::Completed, start, end, 0))).unwrap();
    assert_eq!(r.status, TaskStatus::Completed);
    assert_eq!(r.message.unwrap(), "Task completed in 5ms");
}

#[test]
fn status_test_query_status_not_found() {
    assert!(matches!(status_response(9, StatusSource::Absent), Err(BifrostError::TaskNotFound(9))));
}

#[test]
fn test_write_status_parse() {
    let doc = r#"{"task_id": "x", "status": "Running", "message": "working"}"#.to_string();
    let r = status_response(9, StatusSource::Reported(doc)).unwrap();
    assert_eq!(r.status, TaskStatus::Running);
    assert_eq!(r.message.as_deref(), Some("working"));
    let r = status_response(9, StatusSource::Reported("{}".to_string())).unwrap();
    assert_eq!(r.status, TaskStatus::Pending);
    assert!(r.message.is_none());
    assert!(matches!(status_response(9, StatusSource::Reported("{ not json".to_string())), Err(BifrostError::JsonError(_))));
}

#[test]
fn test_defaults() {
    let dir = config_dir(Some("/home/u".to_string()));
    assert_eq!(dir, "/home/u/.bifrost");
    assert_eq!(BifrostSettings::defaults(&dir).shared_storage, "/home/u/.bifrost/data");
    assert_eq!(BifrostSettings::path(&dir), "/home/u/.bifrost/settings.json");
    assert_eq!(config_dir(None), ".bifrost");
}

fn base_settings() -> BifrostSettings {
    BifrostSettings {
        shared_storage: "/t".to_string(),
        transport: Transport::default(),
        ssh: None,
        client: ClientSection::default(),
        daemon: DaemonSection::default(),
    }
}

#[test]
fn test_transport_defaults_to_shared() {
    let s = base_settings();
    assert_eq!(s.transport, Transport::Shared);
    assert!(!s.transport.is_ssh());
    assert!(Transport::Ssh.is_ssh());
}

#[test]
fn test_validate_ssh_requires_section_and_fields() {
    let no_section = BifrostSettings { transport: Transport::Ssh, ssh: None, ..base_settings() };
    assert!(no_section.validate().is_err());
    let no_host = BifrostSettings {
        transport: Transport::Ssh,
        ssh: Some(SshSection { host: None, remote_dir: Some("/r".to_string()), ..SshSection::default() }),
        ..base_settings()
    };
    assert!(no_host.validate().is_err());
    let ok = BifrostSettings {
        transport: Transport::Ssh,
        ssh: Some(SshSection { host: Some("h1".to_string()), remote_dir: Some("/r".to_string()), ..SshSection::default() }),
        ..base_settings()
    };
    assert!(ok.validate().is_ok());
}

#[test]
fn settings_checks_and_fallback() {
    let mut s = base_settings();
    s.daemon.max_retries = Some(11);
    match s.validate() {
        Err(SettingsError::Duration { value, reason }) => {
            assert_eq!(value, "11");
            assert_eq!(reason, "max_retries must be <= 10");
        }
        _ => panic!("expected a refusal"),
    }
    s.daemon.max_retries = Some(10);
    s.daemon.max_concurrent = Some(0);
    assert!(s.validate().is_err());
    let fallback = settings_or_defaults(Some(s), "/cfg");
    assert_eq!(fallback.shared_storage, "/cfg/data");
    let kept = settings_or_defaults(Some(base_settings()), "/cfg");
    assert_eq!(kept.shared_storage, "/t");
    assert_eq!(
        SettingsError::Duration { value: "x".to_string(), reason: "bad".to_string() }.message(),
        "Invalid duration 'x': bad"
    );
}

#[test]
fn test_parse_duration() {
    assert_eq!(parse_duration_str("2s").ok(), Some(Span::from_secs(2)));
    assert_eq!(parse_duration_str("500ms").ok(), Some(Span::from_millis(500)));
}

#[test]
fn test_invalid_duration() {
    match parse_duration_str("blargh") {
        Err(SettingsError::Duration { value, .. }) => assert_eq!(value, "blargh"),
        _ => panic!("expected an error"),
    }
}

#[test]
fn test_duration_deserialization() {
    assert_eq!(parse_duration_str("2s").unwrap(), Span::from_secs(2));
}

#[test]
fn test_duration_milliseconds() {
    assert_eq!(parse_duration_str("500ms").unwrap(), Span::from_millis(500));
}

#[test]
fn durations_round_trip_through_text() {
    for d in [Span::from_secs(9420), Span::from_millis(32), Span { secs: 3, nanos: 7 }] {
        assert_eq!(parse_duration_str(&duration_text(d)).unwrap(), d);
    }
}

#[test]
fn test_client_config_default() {
    let config = ClientConfig::default();
    assert_eq!(config.shared_storage, "/tmp/bifrost");
    assert_eq!(config.poll_interval, Span::from_secs(2));
    assert_eq!(config.heartbeat_timeout, Span::from_secs(180));
}

#[test]
fn test_daemon_config_default() {
    let config = DaemonConfig::default();
    assert_eq!(config.shared_storage, "/tmp/bifrost");
    assert_eq!(config.poll_interval, Span::from_millis(500));
    assert_eq!(config.task_timeout, Span::from_secs(300));
    assert_eq!(config.max_concurrent, 10);
    assert_eq!(config.max_retries, 3);
}

#[test]
fn test_config_validation_poll_interval_too_small() {
    let config = ClientConfig { poll_interval: Span::from_millis(10), ..ClientConfig::default() };
    assert!(config.validate().is_err());
}

#[test]
fn test_config_validation_max_retries_out_of_range() {
    let config = DaemonConfig { max_retries: 20, ..DaemonConfig::default() };
    match config.validate() {
        Err(ConfigError::DurationError(m)) => assert_eq!(m, "max_retries must be between 0 and 10"),
        _ => panic!("expected a refusal"),
    }
    assert!(DaemonConfig { max_concurrent: 0, ..DaemonConfig::default() }.validate().is_err());
    assert!(DaemonConfig::default().validate().is_ok());
    assert!(ClientConfig::default().validate().is_ok());
}

#[test]
fn test_sh_quote() {
    assert_eq!(sh_quote("/a/b"), "'/a/b'");
    assert_eq!(sh_quote("it's"), "'it'\\''s'");
}

#[test]
fn test_ssh_bridge_from_settings() {
    let cfg = SshSection {
        host: Some("h1".to_string()),
        user: Some("u1".to_string()),
        remote_dir: Some("/r".to_string()),
        port: Some(2222),
        connect_timeout: None,
    };
    let b = SshBridge::new(&cfg).unwrap();
    assert_eq!(b.target(), "u1@h1");
    assert_eq!(b.remote_dir(), "/r");
    assert_eq!(
        b.ssh_args(),
        vec!["-o", "BatchMode=yes", "-o", "ConnectTimeout=10", "-p", "2222", "u1@h1"]
    );
    let bad = SshSection { host: None, remote_dir: Some("/r".to_string()), ..SshSection::default() };
    assert!(SshBridge::new(&bad).is_err());
}

#[test]
fn ssh_commands_quote_paths() {
    let b = SshBridge::local("/r".to_string());
    assert!(b.is_local());
    assert_eq!(b.read_file_command("results", "a_result.json"), "cat '/r/results/a_result.json'");
    assert_eq!(write_command("/r/commands/x.json"), "mkdir -p '/r/commands' && cat > '/r/commands/x.json.tmp' && mv '/r/commands/x.json.tmp' '/r/commands/x.json'");
    assert_eq!(parent_dir("x.json"), ".");
    assert_eq!(
        b.heartbeat_age_command(),
        "test -f '/r/heartbeat.json' && echo $(( $(date +%s) - $(stat -c %Y '/r/heartbeat.json') )) || echo -1"
    );
}

#[test]
fn ssh_outputs_are_read() {
    assert_eq!(age_from_output("42\n"), Some(42));
    assert_eq!(age_from_output("-1\n"), None);
    assert_eq!(age_from_output("x"), None);
    assert!(matches!(task_text_or_missing(" \n".to_string(), 4), Err(BifrostError::TaskNotFound(4))));
    assert_eq!(task_text_or_missing("{}".to_string(), 4).unwrap(), "{}");
    match remote_outcome("command", false, "exit status: 1", String::new(), "  boom \n") {
        Err(BifrostError::ExecutionError(m)) => assert_eq!(m, "remote command failed (exit exit status: 1): boom"),
        _ => panic!("expected a failure"),
    }
    assert_eq!(file_or_absent(Err(BifrostError::ExecutionError("x".to_string()))).unwrap(), None);
    assert!(file_or_absent(Err(BifrostError::JsonError("x".to_string()))).is_err());
}

#[test]
fn batch_tracker_paths_and_states() {
    let t = BatchTracker::new("/b".to_string());
    let id = 0x550e8400_e29b_41d4_a716_446655440000u128;
    assert_eq!(t.progress_file_path(id), "/b/550e8400-e29b-41d4-a716-446655440000.json");
    let now = Timestamp { secs: 1_000_000, nanos: 0 };
    let cutoff = cleanup_cutoff(now, 7);
    assert_eq!(cutoff.secs, 1_000_000 - 7 * 86400);
    assert!(is_expired(Timestamp { secs: 0, nanos: 0 }, cutoff));
    assert!(!is_expired(now, cutoff));
}

fn progress(total: usize) -> BatchProgress {
    let t = Timestamp { secs: 0, nanos: 0 };
    BatchProgress {
        batch_id: 1,
        manifest_path: "/test/tasks.json".to_string(),
        total_tasks: total,
        current_index: 0,
        submitted_tasks: vec![],
        completed_tasks: vec![],
        status: BatchStatus::Running,
        created_at: t,
        updated_at: t,
    }
}

#[test]
fn test_batch_progress_tracking() {
    let mut p = progress(2);
    assert!(is_active_batch(&p));
    let task = Task::new("echo".to_string(), TaskType::Shell).with_batch_id(1).with_task_name("a".to_string());
    let t = Timestamp { secs: 0, nanos: 0 };
    let ok = result_with(TaskStatus::Completed, t, t, 0);
    record_completion(&mut p, &task, &ok, Timestamp { secs: 5, nanos: 0 });
    assert_eq!(p.status, BatchStatus::Running);
    assert_eq!(p.completed_tasks[0].2, "a");
    let unnamed = Task::new("echo".to_string(), TaskType::Shell);
    let bad = result_with(TaskStatus::Failed, t, t, 0);
    record_completion(&mut p, &unnamed, &bad, Timestamp { secs: 6, nanos: 0 });
    assert_eq!(p.status, BatchStatus::Failed);
    assert_eq!(p.completed_tasks[1].2, "unnamed");
    assert!(!is_active_batch(&p));
    let mut q = progress(1);
    record_completion(&mut q, &task, &ok, Timestamp { secs: 7, nanos: 0 });
    assert_eq!(q.status, BatchStatus::Completed);
    assert_eq!(q.updated_at, Timestamp { secs: 7, nanos: 0 });
}

#[test]
fn job_results_count_outcomes() {
    assert_eq!(default_timeout(), 300);
    let mut jr = JobResult::new_at("j".to_string(), 2, Timestamp { secs: 10, nanos: 0 });
    let rec = |status: &str| JobTaskResult {
        name: "t".to_string(),
        task_id: 1,
        exit_code: None,
        status: status.to_string(),
        stdout: String::new(),
        stderr: String::new(),
        duration_secs: 0,
        error_message: None,
        artifacts: vec![],
    };
    jr.record_task(rec("Completed"));
    jr.record_task(rec("Timeout"));
    assert_eq!((jr.completed_tasks, jr.failed_tasks), (1, 1));
    jr.finalize_at(Timestamp { secs: 25, nanos: 0 });
    assert_eq!(jr.status, "CompletedWithFailures");
    assert_eq!(jr.total_duration_secs, 15);
}

#[test]
fn db_helpers() {
    assert_eq!(truncate("hello", 10), "hello");
    assert_eq!(truncate("hello world", 5), "hello...");
    assert_eq!(truncate("你好", 1), "你...");
    assert_eq!(truncate("你好", 2), "你好");
    let t = Timestamp { secs: 0, nanos: 0 };
    let r = result_with(TaskStatus::Completed, t, Timestamp { secs: 3, nanos: 900_000_000 }, 0);
    assert_eq!(stored_duration_ms(&r), 3000);
    assert_eq!(artifact_record_name("/tmp/out/report.json"), "report.json");
    assert_eq!(artifact_record_name("/"), "/");
    let q = history_query(Some(TaskStatus::Running), None, 50, 10);
    assert!(q.sql.ends_with(" AND status = ?1 ORDER BY created_at DESC LIMIT ?2 OFFSET ?3"));
    assert!(matches!(&q.params[0], SqlParam::Text(s) if s == "Running"));
    assert!(matches!(&q.params[2], SqlParam::Int(10)));
    let q = history_query(None, Some(TaskType::Pytest), 5, 0);
    assert!(q.sql.ends_with(" AND task_type = ?1 ORDER BY created_at DESC LIMIT ?2 OFFSET ?3"));
    assert_eq!(q.params.len(), 3);
}

#[test]
fn atomic_write_goes_through_tmp() {
    assert_eq!(atomic_temp_path("/s/results/a_result.json"), "/s/results/a_result.tmp");
    assert_eq!(atomic_temp_path("/s/status/x.y/"), "/s/status/x.tmp");
}

#[test]
fn task_file_name_carries_calendar_time() {
    let task = Task::new("echo".to_string(), TaskType::Shell);
    let task = Task { timestamp: Timestamp { secs: 0, nanos: 0 }, ..task };
    let path = Protocol::new("/s".to_string()).task_file_path(&task).unwrap();
    assert_eq!(path, format!("/s/commands/19700101_000000_{}.json", uuid::Uuid::from_u128(task.task_id)));
    let mut m = StringMap::new();
    m.insert("k".to_string(), "v".to_string());
    assert_eq!(m.copy().get("k"), Some("v".to_string()));
}

#[test]
fn listing_output_gives_each_file_document() {
    let out = "noise\n===FILE===a.json\n{\"x\":1}\n===FILE===b.json\n{\"y\":2}\n";
    let docs = listing_documents(out);
    assert_eq!(docs, vec!["{\"x\":1}\n".to_string(), "{\"y\":2}\n".to_string()]);
    assert!(listing_documents("").is_empty());
    assert!(listing_documents("no marker at all").is_empty());
    // A chunk without a line break carries no document.
    assert_eq!(listing_documents("===FILE===only-name"), Vec::<String>::new());
    assert_eq!(listing_documents("===FILE===n\n"), vec![String::new()]);
}

#[test]
fn bridge_follows_transport() {
    let shared = base_settings();
    match create_bridge(&shared) {
        Ok(BridgeChoice::Shared(p)) => assert_eq!(p.shared_storage(), shared.shared_storage),
        _ => panic!("shared transport gives the shared-storage bridge"),
    }
    let no_section = BifrostSettings { transport: Transport::Ssh, ssh: None, ..base_settings() };
    match create_bridge(&no_section) {
        Err(BifrostError::ConfigInvalid(m)) => assert_eq!(m, "transport=ssh but no ssh section"),
        _ => panic!("ssh without a section is refused"),
    }
    let no_host = BifrostSettings {
        transport: Transport::Ssh,
        ssh: Some(SshSection { host: None, remote_dir: Some("/r".to_string()), ..SshSection::default() }),
        ..base_settings()
    };
    match create_bridge(&no_host) {
        Err(BifrostError::ConfigInvalid(m)) => assert_eq!(m, "ssh.host required"),
        _ => panic!("ssh without a host is refused"),
    }
    let no_dir = BifrostSettings {
        transport: Transport::Ssh,
        ssh: Some(SshSection { host: Some("h1".to_string()), remote_dir: None, ..SshSection::default() }),
        ..base_settings()
    };
    match create_bridge(&no_dir) {
        Err(BifrostError::ConfigInvalid(m)) => assert_eq!(m, "ssh.remote_dir required"),
        _ => panic!("ssh without a remote dir is refused"),
    }
    let ok = BifrostSettings {
        transport: Transport::Ssh,
        ssh: Some(SshSection { host: Some("h1".to_string()), remote_dir: Some("/r".to_string()), ..SshSection::default() }),
        ..base_settings()
    };
    match create_bridge(&ok) {
        Ok(BridgeChoice::Ssh(b)) => {
            assert_eq!(b.remote_dir(), "/r");
            assert!(!b.is_local());
        }
        _ => panic!("a full ssh section gives the ssh bridge"),
    }
}

#[test]
fn test_bifrost_error_task_not_found() {
    let error = BifrostError::TaskNotFound(Task::new("cmd".to_string(), TaskType::Shell).task_id);
    let error_string = error.message();
    assert!(error_string.contains("Task not found"));
}

#[test]
fn test_task_priority_bounds() {
    let task_low = Task::new("cmd".to_string(), TaskType::Shell).with_priority(0);
    assert_eq!(task_low.priority, 0);
    let task_high = Task::new("cmd".to_string(), TaskType::Shell).with_priority(255);
    assert_eq!(task_high.priority, 255);
    let task_mid = Task::new("cmd".to_string(), TaskType::Shell).with_priority(128);
    assert_eq!(task_mid.priority, 128);
}

#[test]
fn test_task_retry_bounds() {
    let task_no_retry = Task::new("cmd".to_string(), TaskType::Shell).with_retry_count(0);
    assert_eq!(task_no_retry.retry_count, 0);
    let task_many_retry = Task::new("cmd".to_string(), TaskType::Shell).with_retry_count(10);
    assert_eq!(task_many_retry.retry_count, 10);
}

#[test]
fn test_task_timeout_bounds() {
    let task_min = Task::new("cmd".to_string(), TaskType::Shell).with_timeout(1);
    assert_eq!(task_min.timeout, 1);
    let task_max = Task::new("cmd".to_string(), TaskType::Shell).with_timeout(86400);
    assert_eq!(task_max.timeout, 86400);
}

#[test]
fn test_task_with_multiple_artifacts() {
    let task = Task::new("cmd".to_string(), TaskType::Shell)
        .with_artifact("report.json".to_string())
        .with_artifact("output.txt".to_string())
        .with_artifact("metrics.csv".to_string());
    assert_eq!(task.artifacts_expected.len(), 3);
    assert!(task.artifacts_expected.contains(&"report.json".to_string()));
    assert!(task.artifacts_expected.contains(&"output.txt".to_string()));
    assert!(task.artifacts_expected.contains(&"metrics.csv".to_string()));
}

#[test]
fn test_task_result_duration() {
    let n = chrono::Utc::now();
    let start = Timestamp { secs: n.timestamp(), nanos: n.timestamp_subsec_nanos() };
    let end = Timestamp { secs: start.secs + 42, nanos: start.nanos };
    let result = TaskResult {
        task_id: Task::new("cmd".to_string(), TaskType::Shell).task_id,
        status: TaskStatus::Completed,
        output: TaskOutput { stdout: String::new(), stderr: String::new(), exit_code: Some(0) },
        command: "echo test".to_string(),
        start_time: start,
        end_time: end,
        duration_ms: 0,
        retries_used: 0,
        artifacts: Vec::new(),
        error_message: None,
    };
    assert_eq!(result.duration_secs(), 42);
    assert!(result.is_success());
}

#[test]
fn duration_that_would_overflow_is_refused() {
    let too_large = "number is too large or cannot be represented without a lack of precision (values below 1ns are not supported)";
    match parse_duration_str("18446744073709551615s 1000ms") {
        Err(SettingsError::Duration { value, reason }) => {
            assert_eq!(value, "18446744073709551615s 1000ms");
            assert_eq!(reason, too_large);
        }
        _ => panic!("expected an error"),
    }
    match parse_duration_str("18446744073709551616s") {
        Err(SettingsError::Duration { reason, .. }) => assert_eq!(reason, too_large),
        _ => panic!("expected an error"),
    }
    assert_eq!(parse_duration_str("99999999999s").unwrap(), Span::from_secs(99999999999));
    assert_eq!(parse_duration_str("123456789012ms").unwrap(), Span::from_millis(123456789012));
    assert_eq!(parse_duration_str("18446744073709551615s").unwrap(), Span::from_secs(u64::MAX));
    assert_eq!(parse_duration_str("18446744073709551614s 1000ms").unwrap(), Span::from_secs(u64::MAX));
    assert_eq!(parse_duration_str("1.5h").unwrap(), Span::from_secs(5400));
}

#[test]
fn status_lookup_prefers_result_then_status_then_queue() {
    let start = Timestamp { secs: 10, nanos: 0 };
    let r = result_with(TaskStatus::Completed, start, start, 0);
    assert!(matches!(
        status_source_of(Some(r), Some("{}".to_string()), true),
        StatusSource::Finished(_)
    ));
    assert!(matches!(
        status_source_of(None, Some("{}".to_string()), true),
        StatusSource::Reported(d) if d == "{}"
    ));
    assert!(matches!(status_source_of(None, None, true), StatusSource::Queued));
    assert!(matches!(status_source_of(None, None, false), StatusSource::Absent));
}
