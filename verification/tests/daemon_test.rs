use bifrost::base::batch_tracker::BatchTracker;
use bifrost::base::models::{Task, TaskStatus, TaskType};
use bifrost::daemon::executor::{
    build_result, captured_output, next_retry, plan_command, timeout_message, truncate_utf8, with_gpu, Executor,
    MAX_OUTPUT_BYTES,
};
use bifrost::daemon::gpu_monitor::{utilization_from_output, GpuMonitor};
use bifrost::daemon::gpu_scheduler::GpuScheduler;
use bifrost::daemon::gpu_task_processor::GpuTaskProcessor;
use bifrost::daemon::heartbeat::{is_alive_at, DaemonStatus, Heartbeat, HeartbeatInfo};
use bifrost::daemon::logger::LogManager;
use bifrost::daemon::runner::{
    claim_marker, daemon_task_timeout, failed_result, is_pending_task_name, max_concurrency,
    outcome_note, parse_failure_message, task_id_from_path,
};
use bifrost::daemon::watcher::{delivered_path, is_new_json_file, AsyncFileWatcher, Debouncer};
use bifrost::daemon::Daemon;
use bifrost::base::config::DaemonConfig;
use bifrost::interop::clock::Timestamp;
use bifrost::interop::durations::Span;

fn now() -> Timestamp {
    let n = chrono::Utc::now();
    Timestamp { secs: n.timestamp(), nanos: n.timestamp_subsec_nanos() }
}

fn create_test_task(name: &str) -> Task {
    Task::new(format!("echo {}", name), TaskType::Shell)
        .with_timeout(300)
        .with_working_dir("/tmp".to_string())
}

fn test_executor() -> Executor {
    Executor::new("/tmp/logs".to_string(), Span::from_secs(30))
}

#[test]
fn test_is_gpu_idle_simulation_mode() {
    let gpu_pool = vec![0, 1, 2];
    let monitor = GpuMonitor::new(gpu_pool.clone(), true);
    for gpu_id in gpu_pool {
        assert!(monitor.is_gpu_idle(gpu_id));
    }
}

#[test]
fn test_is_gpu_idle_invalid_gpu() {
    let gpu_pool = vec![0, 1];
    let monitor = GpuMonitor::new(gpu_pool.clone(), false);
    assert!(!monitor.is_gpu_idle(99));
}

#[test]
fn gpu_idle_follows_last_reading() {
    let mut monitor = GpuMonitor::new(vec![0, 1], false);
    assert!(!monitor.is_gpu_idle(0));
    monitor.record_utilization(0, Some(9));
    assert!(monitor.is_gpu_idle(0));
    monitor.record_utilization(0, Some(10));
    assert!(!monitor.is_gpu_idle(0));
    monitor.record_utilization(1, None);
    assert!(!monitor.is_gpu_idle(1));
}

#[test]
fn utilization_output_is_trimmed_and_parsed() {
    assert_eq!(utilization_from_output(true, " 7\n"), Some(7));
    assert_eq!(utilization_from_output(true, "+42"), Some(42));
    assert_eq!(utilization_from_output(true, "N/A"), None);
    assert_eq!(utilization_from_output(true, "4294967296"), None);
    assert_eq!(utilization_from_output(false, "3"), None);
}

#[test]
fn test_scheduler_new() {
    let gpu_pool = vec![0, 1, 2];
    let monitor = GpuMonitor::new(gpu_pool.clone(), true);
    let scheduler = GpuScheduler::new(gpu_pool.clone(), monitor);
    assert_eq!(scheduler.get_gpu_pool(), &[0, 1, 2]);
    assert_eq!(scheduler.get_active_task_count(), 0);
    assert_eq!(scheduler.get_pending_count(), 0);
}

#[test]
fn test_enqueue_task() {
    let gpu_pool = vec![0, 1];
    let monitor = GpuMonitor::new(gpu_pool.clone(), true);
    let mut scheduler = GpuScheduler::new(gpu_pool, monitor);
    scheduler.enqueue(create_test_task("test1"));
    assert_eq!(scheduler.get_pending_count(), 1);
}

#[test]
fn test_schedule_next_no_tasks() {
    let gpu_pool = vec![0, 1];
    let monitor = GpuMonitor::new(gpu_pool.clone(), true);
    let mut scheduler = GpuScheduler::new(gpu_pool, monitor);
    assert!(scheduler.schedule_next().is_none());
}

#[test]
fn test_release_gpu() {
    let gpu_pool = vec![0];
    let monitor = GpuMonitor::new(gpu_pool.clone(), true);
    let mut scheduler = GpuScheduler::new(gpu_pool, monitor);
    let task = create_test_task("test1");
    let task_id = task.task_id;
    scheduler.enqueue(task);
    let (_, gpu_id) = scheduler.schedule_next().unwrap();
    assert_eq!(scheduler.get_active_task_count(), 1);
    scheduler.release_gpu(gpu_id, task_id);
    assert_eq!(scheduler.get_active_task_count(), 0);
}

#[test]
fn test_status_summary() {
    let gpu_pool = vec![0, 1, 2];
    let monitor = GpuMonitor::new(gpu_pool.clone(), true);
    let mut scheduler = GpuScheduler::new(gpu_pool, monitor);
    let status = scheduler.get_status_summary();
    assert_eq!(status.total_gpus, 3);
    assert_eq!(status.active_tasks, 0);
    assert_eq!(status.pending_tasks, 0);
    assert_eq!(status.available_gpus, 3);
    scheduler.enqueue(create_test_task("test1"));
    scheduler.schedule_next();
    let status = scheduler.get_status_summary();
    assert_eq!(status.active_tasks, 1);
    assert_eq!(status.pending_tasks, 0);
    assert_eq!(status.available_gpus, 2);
}

#[test]
fn scheduler_places_in_pool_order_and_fifo() {
    let monitor = GpuMonitor::new(vec![3, 1], true);
    let mut scheduler = GpuScheduler::new(vec![3, 1], monitor);
    let a = create_test_task("a");
    let b = create_test_task("b");
    let c = create_test_task("c");
    let (a_id, b_id) = (a.task_id, b.task_id);
    scheduler.enqueue(a);
    scheduler.enqueue(b);
    scheduler.enqueue(c);
    let (t1, g1) = scheduler.schedule_next().unwrap();
    let (t2, g2) = scheduler.schedule_next().unwrap();
    assert_eq!((t1.task_id, g1), (a_id, 3));
    assert_eq!((t2.task_id, g2), (b_id, 1));
    assert!(scheduler.schedule_next().is_none());
    assert_eq!(scheduler.get_pending_count(), 1);
    assert!(scheduler.is_gpu_busy(3));
    assert_eq!(scheduler.get_gpu_tasks(1).unwrap(), &vec![b_id]);
    assert!(scheduler.get_gpu_tasks(7).is_none());
}

#[test]
fn release_undoes_placement() {
    let monitor = GpuMonitor::new(vec![0, 1], true);
    let mut scheduler = GpuScheduler::new(vec![0, 1], monitor);
    let task = create_test_task("x");
    let id = task.task_id;
    scheduler.enqueue(task);
    let before = scheduler.get_active_task_count();
    let (_, g) = scheduler.schedule_next().unwrap();
    scheduler.release_gpu(g, id);
    assert_eq!(scheduler.get_active_task_count(), before);
    assert!(!scheduler.is_gpu_busy(g));
    assert_eq!(scheduler.get_gpu_tasks(g).unwrap().len(), 0);
}

#[test]
fn scheduler_waits_for_idle_readings() {
    let mut monitor = GpuMonitor::new(vec![0, 1], false);
    monitor.record_utilization(1, Some(3));
    let mut scheduler = GpuScheduler::new(vec![0, 1], monitor);
    scheduler.enqueue(create_test_task("x"));
    let (_, g) = scheduler.schedule_next().unwrap();
    assert_eq!(g, 1);
}

#[test]
fn test_gpu_task_processor_new() {
    let processor = GpuTaskProcessor::new(vec![0, 1], test_executor(), true, None);
    assert!(processor.is_ok());
}

#[test]
fn gpu_task_processor_test_process_task_no_gpu_available() {
    let mut processor = GpuTaskProcessor::new(vec![], test_executor(), true, None).unwrap();
    let result = processor.begin_task(create_test_task("test"));
    assert!(result.is_err());
    assert!(result.unwrap_err().contains("No available GPU"));
}

#[test]
fn processor_places_and_releases() {
    let tracker = BatchTracker::new("/tmp/batches".to_string());
    let mut processor = GpuTaskProcessor::new(vec![0], test_executor(), true, Some(tracker)).unwrap();
    let task = create_test_task("hello");
    let id = task.task_id;
    let (scheduled, gpu) = processor.begin_task(task).unwrap();
    assert_eq!(scheduled.task_id, id);
    assert_eq!(gpu, 0);
    assert!(processor.begin_task(create_test_task("second")).is_err());
    processor.finish_task(gpu, id);
    assert_eq!(processor.gpu_scheduler().get_active_task_count(), 0);
    assert_eq!(processor.next_scheduled().unwrap().1, 0);
    assert!(processor.batch_tracker().is_some());
}

#[test]
fn test_truncate_utf8_boundary() {
    assert_eq!(truncate_utf8("hello", 100), "hello");
    assert_eq!(truncate_utf8("hello world", 5), "hello...");
    let cn = "你".repeat(500);
    let t = truncate_utf8(&cn, 1000);
    assert!(t.len() <= 1003);
    assert!(t.ends_with("..."));
    assert!(std::str::from_utf8(t.as_bytes()).is_ok());
    assert!(t.starts_with(&"你".repeat(333)));
}

#[test]
fn captured_output_is_bounded() {
    let big = "A".repeat(MAX_OUTPUT_BYTES + 10);
    let o = captured_output(&big, "err", Some(1));
    assert_eq!(o.stdout.len(), MAX_OUTPUT_BYTES + 3);
    assert!(o.stdout.ends_with("..."));
    assert_eq!(o.stderr, "err");
    assert_eq!(o.exit_code, Some(1));
}

#[test]
fn executor_caps_timeout_by_default() {
    let ex = Executor::new("/tmp/logs".to_string(), Span::from_secs(30));
    let t = Task::new("echo".to_string(), TaskType::Shell).with_timeout(60);
    assert_eq!(ex.effective_timeout(&t), Span::from_secs(30));
    let t = t.with_timeout(5);
    assert_eq!(ex.effective_timeout(&t), Span::from_secs(5));
    assert_eq!(ex.log_manager().log_root(), "/tmp/logs");
}

#[test]
fn command_plan_runs_through_the_shell() {
    let t = Task::new("exit 42".to_string(), TaskType::Shell);
    let p = plan_command(&t).unwrap();
    assert_eq!(p.program, "sh");
    assert_eq!(p.args, vec!["-c".to_string(), "exit 42".to_string()]);
    let t = Task::new("echo $CUDA_VISIBLE_DEVICES".to_string(), TaskType::Shell);
    let p = plan_command(&t).unwrap();
    assert_eq!(p.args, vec!["-c".to_string(), "echo $CUDA_VISIBLE_DEVICES".to_string()]);
    assert!(p.working_dir.is_none());
    let t = Task::new("ls".to_string(), TaskType::Shell).with_working_dir("/work".to_string());
    assert_eq!(plan_command(&t).unwrap().working_dir.as_deref(), Some("/work"));
    let t = Task::new("echo 'oops".to_string(), TaskType::Shell);
    assert_eq!(
        plan_command(&t).unwrap_err(),
        "Invalid command syntax: missing closing quote"
    );
    let t = Task::new("   ".to_string(), TaskType::Shell);
    assert_eq!(plan_command(&t).unwrap_err(), "Empty command");
}

#[test]
fn results_follow_exit_code_and_timeouts() {
    let task = Task::new("x".to_string(), TaskType::Shell);
    let start = Timestamp { secs: 1000, nanos: 0 };
    let end = Timestamp { secs: 1002, nanos: 500_000_000 };
    let ok = captured_output("out", "", Some(0));
    let r = build_result(&task, Ok(ok), start, end, 0);
    assert_eq!(r.status, TaskStatus::Completed);
    assert_eq!(r.duration_ms, 2500);
    let failed = captured_output("", "bad", Some(2));
    assert_eq!(build_result(&task, Ok(failed), start, end, 0).status, TaskStatus::Failed);
    let r = build_result(&task, Err(timeout_message(2)), start, end, 0);
    assert_eq!(r.status, TaskStatus::Timeout);
    assert_eq!(r.error_message.unwrap(), "Task timed out after 2 seconds");
    let r = build_result(&task, Err("Failed to spawn process: nope".to_string()), start, end, 0);
    assert_eq!(r.status, TaskStatus::Failed);
    assert_eq!(r.output.stderr, "Failed to spawn process: nope");
}

#[test]
fn test_execute_with_gpu_injection() {
    let task = Task::new("nvidia-smi".to_string(), TaskType::Shell);
    let t = with_gpu(task, 3);
    assert_eq!(t.env_vars.get("CUDA_VISIBLE_DEVICES"), Some("3".to_string()));
}

#[test]
fn log_paths_are_per_task() {
    let m = LogManager::new("/logs".to_string());
    let id = 0x550e8400_e29b_41d4_a716_446655440000u128;
    let (out, err) = m.get_log_paths(id);
    assert_eq!(out, "/logs/550e8400-e29b-41d4-a716-446655440000/stdout.log");
    assert_eq!(err, "/logs/550e8400-e29b-41d4-a716-446655440000/stderr.log");
    assert_eq!(m.metadata_path(id), "/logs/550e8400-e29b-41d4-a716-446655440000/metadata.json");
}

#[test]
fn test_heartbeat_new() {
    let heartbeat = Heartbeat::new("/tmp/shared");
    assert_eq!(heartbeat.info().status, DaemonStatus::Idle);
    assert_eq!(heartbeat.info().active_tasks, 0);
    assert_eq!(heartbeat.info().pending_tasks, 0);
    assert_eq!(heartbeat.heartbeat_file(), "/tmp/shared/heartbeat.json");
}

#[test]
fn test_heartbeat_update_status() {
    let mut heartbeat = Heartbeat::new("/tmp/shared");
    heartbeat.update_status(DaemonStatus::Running);
    assert_eq!(heartbeat.info().status, DaemonStatus::Running);
}

#[test]
fn test_heartbeat_update_task_counts() {
    let mut heartbeat = Heartbeat::new("/tmp/shared");
    heartbeat.update_task_counts(3, 5);
    assert_eq!(heartbeat.info().active_tasks, 3);
    assert_eq!(heartbeat.info().pending_tasks, 5);
}

#[test]
fn test_heartbeat_is_alive() {
    let heartbeat = Heartbeat::new("/tmp/shared");
    let mut info: HeartbeatInfo = *heartbeat.info();
    info.timestamp = now();
    assert!(Heartbeat::is_alive(&info));
    let t = now();
    info.timestamp = Timestamp { secs: t.secs - 180, nanos: t.nanos };
    assert!(!Heartbeat::is_alive(&info));
}

#[test]
fn heartbeat_alive_boundary() {
    let heartbeat = Heartbeat::new("/tmp/shared");
    let mut info: HeartbeatInfo = *heartbeat.info();
    info.timestamp = Timestamp { secs: 1000, nanos: 0 };
    assert!(is_alive_at(&info, Timestamp { secs: 1119, nanos: 999_999_999 }));
    assert!(!is_alive_at(&info, Timestamp { secs: 1120, nanos: 0 }));
}

#[test]
fn test_heartbeat_stop() {
    let mut heartbeat = Heartbeat::new("/tmp/shared");
    heartbeat.stop();
    assert!(heartbeat.stopped());
}

#[test]
fn test_task_id_from_path() {
    assert_eq!(
        task_id_from_path("20260731_103000_550e8400-e29b-41d4-a716-446655440000.json"),
        Some(uuid::Uuid::parse_str("550e8400-e29b-41d4-a716-446655440000").unwrap().as_u128())
    );
    assert_eq!(task_id_from_path("bad.json"), None);
    assert_eq!(task_id_from_path("20260731_x.json"), None);
}

#[test]
fn task_file_name_carries_its_id() {
    let task = Task::new("echo".to_string(), TaskType::Shell);
    let name = format!("20260731_103000_{}.json", uuid::Uuid::from_u128(task.task_id));
    assert_eq!(task_id_from_path(&format!("/shared/commands/{}", name)), Some(task.task_id));
}

#[test]
fn test_scan_pending_excludes_sidecars() {
    let names = [
        "20260731_103000_550e8400-e29b-41d4-a716-446655440000.json",
        "20260731_103000_550e8400-e29b-41d4-a716-446655440000.lock",
        "20260731_103000_550e8400-e29b-41d4-a716-446655440000.processing",
        "20260731_103000_550e8400-e29b-41d4-a716-446655440000.json.tmp123",
    ];
    let found: Vec<&str> = names.iter().copied().filter(|n| is_pending_task_name(n)).collect();
    assert_eq!(found.len(), 1);
    assert!(found[0].ends_with(".json"));
}

#[test]
fn claim_marker_replaces_extension() {
    assert_eq!(claim_marker("/c/20260731_x.json"), "/c/20260731_x.processing");
    assert_eq!(claim_marker("/c/.hidden"), "/c/.hidden.processing");
    assert_eq!(claim_marker("/"), "/");
}

#[test]
fn runner_defaults() {
    assert_eq!(max_concurrency(None), 10);
    assert_eq!(max_concurrency(Some(0)), 1);
    assert_eq!(max_concurrency(Some(500)), 100);
    assert_eq!(daemon_task_timeout(None), Span::from_secs(300));
    assert_eq!(parse_failure_message(), "cannot parse task file (after 3 retries)");
    assert_eq!(outcome_note(TaskStatus::Completed), Some("ok"));
    assert_eq!(outcome_note(TaskStatus::Failed), None);
    let r = failed_result(7, String::new(), "boom", Timestamp { secs: 5, nanos: 0 });
    assert_eq!(r.status, TaskStatus::Failed);
    assert_eq!(r.output.stderr, "boom");
    assert_eq!(r.error_message.as_deref(), Some("boom"));
}

#[test]
fn watcher_test_watcher_new() {
    let watcher = AsyncFileWatcher::new("/tmp/commands".to_string(), true);
    assert!(watcher.is_ok());
}

#[test]
fn watcher_test_watcher_nonexistent_dir() {
    let watcher = AsyncFileWatcher::new("/nonexistent/path".to_string(), false);
    assert_eq!(
        watcher.unwrap_err(),
        "Commands directory does not exist: /nonexistent/path"
    );
}

#[test]
fn test_watcher_ignores_non_json() {
    let dir = "/shared/commands";
    assert!(is_new_json_file(true, &vec!["/shared/commands/a.json".to_string()], dir));
    assert!(!is_new_json_file(true, &vec!["/shared/commands/a.txt".to_string()], dir));
    assert!(!is_new_json_file(true, &vec!["/elsewhere/a.json".to_string()], dir));
    assert!(!is_new_json_file(false, &vec!["/shared/commands/a.json".to_string()], dir));
    assert!(is_new_json_file(true, &vec!["/shared/commands//b.json".to_string()], "/shared/commands/"));
    assert_eq!(delivered_path(&vec!["/x/a.json".to_string()]).as_deref(), Some("/x/a.json"));
    assert!(delivered_path(&vec!["/x/a.lock".to_string()]).is_none());
}

#[test]
fn test_watcher_debounce_timing() {
    let mut d = Debouncer::new();
    assert!(d.let_through(1_000_000_000));
    assert!(!d.let_through(1_200_000_000));
    assert!(d.let_through(1_500_000_000));
    assert!(!d.let_through(1_000_000_000));
}

#[test]
fn daemon_loop_is_not_there() {
    let d = Daemon::new(DaemonConfig::default()).unwrap();
    assert_eq!(d.run().unwrap_err(), "Daemon run loop not implemented yet");
}

fn create_pytest_test_task(name: &str) -> Task {
    Task::new(format!("pytest tests/test_{}.py -v", name), TaskType::Pytest)
        .with_timeout(300)
        .with_working_dir("/workspace".to_string())
}

#[test]
fn test_schedule_next_with_idle_gpu() {
    let gpu_pool = vec![0, 1, 2];
    let monitor = GpuMonitor::new(gpu_pool.clone(), true);
    let mut scheduler = GpuScheduler::new(gpu_pool, monitor);
    scheduler.enqueue(create_pytest_test_task("task1"));
    let (task, gpu_id) = scheduler.schedule_next().unwrap();
    assert_eq!(gpu_id, 0);
    assert!(task.command.contains("test_task1"));
}

#[test]
fn test_schedule_next_returns_none_when_empty() {
    let gpu_pool = vec![0, 1];
    let monitor = GpuMonitor::new(gpu_pool.clone(), true);
    let mut scheduler = GpuScheduler::new(gpu_pool, monitor);
    assert!(scheduler.schedule_next().is_none());
}

#[test]
fn test_schedule_next_with_no_available_gpus() {
    let gpu_pool = vec![0];
    let monitor = GpuMonitor::new(gpu_pool.clone(), true);
    let mut scheduler = GpuScheduler::new(gpu_pool, monitor);
    scheduler.enqueue(create_pytest_test_task("task1"));
    scheduler.enqueue(create_pytest_test_task("task2"));
    let (task1, gpu0) = scheduler.schedule_next().unwrap();
    assert_eq!(gpu0, 0);
    assert!(task1.command.contains("test_task1"));
    assert!(scheduler.schedule_next().is_none());
}

#[test]
fn test_gpu_monitor_is_gpu_idle_in_simulation_mode() {
    let gpu_pool = vec![0, 1, 2];
    let monitor = GpuMonitor::new(gpu_pool.clone(), true);
    for gpu_id in gpu_pool {
        assert!(monitor.is_gpu_idle(gpu_id));
    }
}

#[test]
fn test_schedule_multiple_tasks_across_gpus() {
    let gpu_pool = vec![0, 1, 2];
    let monitor = GpuMonitor::new(gpu_pool.clone(), true);
    let mut scheduler = GpuScheduler::new(gpu_pool, monitor);
    scheduler.enqueue(create_pytest_test_task("task1"));
    scheduler.enqueue(create_pytest_test_task("task2"));
    scheduler.enqueue(create_pytest_test_task("task3"));
    let (_, gpu1) = scheduler.schedule_next().unwrap();
    let (_, gpu2) = scheduler.schedule_next().unwrap();
    let (_, gpu3) = scheduler.schedule_next().unwrap();
    assert_eq!(gpu1, 0);
    assert_eq!(gpu2, 1);
    assert_eq!(gpu3, 2);
}

#[test]
fn test_gpu_task_processor_creation() {
    assert!(GpuTaskProcessor::new(vec![0, 1, 2, 3], test_executor(), true, None).is_ok());
}

#[test]
fn test_gpu_task_processor_empty_gpu_pool() {
    assert!(GpuTaskProcessor::new(vec![], test_executor(), true, None).is_ok());
}

#[test]
fn real_mode_schedules_only_on_fresh_low_readings() {
    let monitor = GpuMonitor::new(vec![0, 1], false);
    assert!(!monitor.simulated());
    assert_eq!(monitor.gpus(), &[0, 1]);
    let mut scheduler = GpuScheduler::new(vec![0, 1], monitor);
    scheduler.enqueue(create_test_task("a"));
    assert!(scheduler.schedule_next().is_none());
    scheduler.record_utilization(0, Some(50));
    scheduler.record_utilization(1, Some(3));
    assert!(!scheduler.get_monitor().is_gpu_idle(0));
    assert!(scheduler.get_monitor().is_gpu_idle(1));
    let (t, g) = scheduler.schedule_next().unwrap();
    assert_eq!(t.command, "echo a");
    assert_eq!(g, 1);
    assert_eq!(scheduler.get_pending_count(), 0);
}

#[test]
fn processor_readings_reach_its_scheduler() {
    let mut p = GpuTaskProcessor::new(vec![2], test_executor(), false, None).unwrap();
    assert!(p.begin_task(create_test_task("x")).is_err());
    p.record_utilization(2, Some(9));
    let (t, g) = p.next_scheduled().unwrap();
    assert_eq!(t.command, "echo x");
    assert_eq!(g, 2);
    p.finish_task(2, t.task_id);
    p.record_utilization(2, None);
    p.accept(create_test_task("y"));
    assert!(p.next_scheduled().is_none());
    assert_eq!(p.gpu_scheduler().get_pending_count(), 1);
}

#[test]
fn coverage_boost_test_test_watcher_nonexistent_dir() {
    let dir = "/nonexistent/path";
    let watcher = AsyncFileWatcher::new(dir.to_string(), std::path::Path::new(dir).exists());
    assert!(watcher.is_err());
}

#[test]
fn test_watcher_nonexistent_directory() {
    let dir = "/nonexistent/path";
    let watcher = AsyncFileWatcher::new(dir.to_string(), std::path::Path::new(dir).exists());
    assert!(watcher.is_err());
    assert!(watcher.unwrap_err().contains("Commands directory does not exist"));
}

#[test]
fn scheduler_takes_smallest_priority_value_first() {
    let monitor = GpuMonitor::new(vec![0], true);
    let mut scheduler = GpuScheduler::new(vec![0], monitor);
    scheduler.enqueue(create_test_task("a").with_priority(50));
    scheduler.enqueue(create_test_task("b").with_priority(0));
    scheduler.enqueue(create_test_task("c").with_priority(0));
    let (t, g) = scheduler.schedule_next().unwrap();
    assert_eq!(t.command, "echo b");
    assert_eq!(g, 0);
    scheduler.release_gpu(0, t.task_id);
    let (t, _) = scheduler.schedule_next().unwrap();
    assert_eq!(t.command, "echo c");
    scheduler.release_gpu(0, t.task_id);
    let (t, _) = scheduler.schedule_next().unwrap();
    assert_eq!(t.command, "echo a");
}

#[test]
fn simulated_monitor_reports_every_gpu_idle() {
    let monitor = GpuMonitor::new(vec![0], true);
    assert!(monitor.is_gpu_idle(7));
    assert!(!GpuMonitor::new(vec![0], false).is_gpu_idle(7));
}

#[test]
fn failed_runs_are_retried_up_to_the_retry_count() {
    let task = create_test_task("x").with_retry_count(2);
    let start = Timestamp { secs: 100, nanos: 0 };
    let failed = bifrost::base::models::TaskOutput {
        stdout: String::new(),
        stderr: String::new(),
        exit_code: Some(1),
    };
    let mut retries: u8 = 0;
    let mut runs = 0;
    let last = loop {
        runs += 1;
        let r = build_result(&task, Ok(failed.clone()), start, start, retries);
        match next_retry(&r, task.retry_count) {
            Some(k) => retries = k,
            None => break r,
        }
    };
    assert_eq!(runs, 3);
    assert_eq!(last.retries_used, 2);
    assert_eq!(last.status, TaskStatus::Failed);
    let ok = bifrost::base::models::TaskOutput { stdout: String::new(), stderr: String::new(), exit_code: Some(0) };
    let r = build_result(&task, Ok(ok), start, start, 1);
    assert_eq!(r.retries_used, 1);
    assert_eq!(next_retry(&r, task.retry_count), None);
    let t = build_result(&task, Err(timeout_message(5)), start, start, 0);
    assert_eq!(next_retry(&t, task.retry_count), Some(1));
}

#[test]
fn run_metadata_records_the_run() {
    let start = Timestamp { secs: 100, nanos: 0 };
    let end = Timestamp { secs: 142, nanos: 500_000_000 };
    let m = bifrost::daemon::logger::run_metadata(7, start, end, Some(3));
    assert_eq!(m.task_id, 7);
    assert_eq!(m.duration_secs, 42);
    assert_eq!(m.exit_code, Some(3));
    assert_eq!(m.start_time, start);
    assert_eq!(m.end_time, end);
}

#[test]
fn single_gpu_is_free_again_after_a_task_finishes() {
    let mut p = GpuTaskProcessor::new(vec![0], test_executor(), true, None).unwrap();
    let (t1, g1) = p.begin_task(create_test_task("task1")).unwrap();
    assert_eq!(g1, 0);
    p.finish_task(g1, t1.task_id);
    let (t2, g2) = p.begin_task(create_test_task("task2")).unwrap();
    assert_eq!(g2, 0);
    assert_eq!(t2.command, "echo task2");
}
