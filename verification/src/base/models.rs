//! Core data models: tasks, their outputs and results, and batches.
use vstd::prelude::*;

use crate::base::string_map::StringMap;
use crate::interop::clock::{self, Timestamp};
use crate::interop::ids;

verus! {

/// Kind of task.
#[derive(Clone, Copy, Debug, PartialEq, Eq, Structural)]
pub enum TaskType {
    /// Pytest test execution
    Pytest,
    /// Shell command execution
    Shell,
    /// Custom command type
    Custom,
}

/// Lifecycle state of a task.
#[derive(Clone, Copy, Debug, PartialEq, Eq, Structural)]
pub enum TaskStatus {
    /// Waiting to be executed
    Pending,
    /// Being executed
    Running,
    /// Completed successfully
    Completed,
    /// Failed
    Failed,
    /// Cancelled
    Cancelled,
    /// Timed out
    Timeout,
}

/// The name under which a status is written and shown.
pub open spec fn status_text(s: TaskStatus) -> Seq<char> {
    match s {
        TaskStatus::Pending => "Pending"@,
        TaskStatus::Running => "Running"@,
        TaskStatus::Completed => "Completed"@,
        TaskStatus::Failed => "Failed"@,
        TaskStatus::Cancelled => "Cancelled"@,
        TaskStatus::Timeout => "Timeout"@,
    }
}

/// The name of a task type.
pub open spec fn task_type_text(t: TaskType) -> Seq<char> {
    match t {
        TaskType::Pytest => "Pytest"@,
        TaskType::Shell => "Shell"@,
        TaskType::Custom => "Custom"@,
    }
}

impl TaskStatus {
    /// The status name (`Pending`, `Running`, ...).
    pub fn display_text(&self) -> (s: String)
        ensures
            s@ == status_text(*self),
    {
        match self {
            TaskStatus::Pending => "Pending".to_owned(),
            TaskStatus::Running => "Running".to_owned(),
            TaskStatus::Completed => "Completed".to_owned(),
            TaskStatus::Failed => "Failed".to_owned(),
            TaskStatus::Cancelled => "Cancelled".to_owned(),
            TaskStatus::Timeout => "Timeout".to_owned(),
        }
    }
}

impl TaskType {
    /// The type name (`Pytest`, `Shell`, `Custom`).
    pub fn display_text(&self) -> (s: String)
        ensures
            s@ == task_type_text(*self),
    {
        match self {
            TaskType::Pytest => "Pytest".to_owned(),
            TaskType::Shell => "Shell".to_owned(),
            TaskType::Custom => "Custom".to_owned(),
        }
    }
}

/// A single command execution task.
#[derive(Clone, Debug)]
pub struct Task {
    /// Unique task identifier
    pub task_id: u128,
    /// Creation time
    pub timestamp: Timestamp,
    /// Command to execute
    pub command: String,
    /// Type of task
    pub task_type: TaskType,
    /// Priority (0-255, lower is higher priority)
    pub priority: u8,
    /// Timeout in seconds
    pub timeout: u64,
    /// Number of retry attempts
    pub retry_count: u8,
    /// Environment variables for the task
    pub env_vars: StringMap,
    /// Working directory for the command
    pub working_dir: String,
    /// Expected artifact files
    pub artifacts_expected: Vec<String>,
    /// Additional metadata
    pub metadata: StringMap,
    /// Batch the task belongs to
    pub batch_id: Option<u128>,
    /// Task name (for batch tasks)
    pub task_name: Option<String>,
}

impl Task {
    /// Its maps keep distinct keys.
    pub open spec fn wf(&self) -> bool {
        self.env_vars.wf() && self.metadata.wf()
    }

    /// The defaults a new task gets for everything but its identity,
    /// command and type.
    pub open spec fn has_defaults(&self) -> bool {
        &&& self.wf()
        &&& self.priority == 0
        &&& self.timeout == 300
        &&& self.retry_count == 3
        &&& self.env_vars@ == Map::<Seq<char>, Seq<char>>::empty()
        &&& self.working_dir@ == "."@
        &&& self.artifacts_expected@.len() == 0
        &&& self.metadata@ == Map::<Seq<char>, Seq<char>>::empty()
        &&& self.batch_id is None
        &&& self.task_name is None
    }

    /// A task with the given identity, command and type and default settings.
    pub fn with_identity(
        task_id: u128,
        timestamp: Timestamp,
        command: String,
        task_type: TaskType,
    ) -> (t: Task)
        ensures
            t.task_id == task_id,
            t.timestamp == timestamp,
            t.command == command,
            t.task_type == task_type,
            t.has_defaults(),
    {
        Task {
            task_id,
            timestamp,
            command,
            task_type,
            priority: 0,
            timeout: 300,
            retry_count: 3,
            env_vars: StringMap::new(),
            working_dir: ".".to_owned(),
            artifacts_expected: Vec::new(),
            metadata: StringMap::new(),
            batch_id: None,
            task_name: None,
        }
    }

    /// A new task with a fresh random identifier, the current time, and
    /// default settings.
    pub fn new(command: String, task_type: TaskType) -> (t: Task)
        ensures
            t.command == command,
            t.task_type == task_type,
            t.timestamp.wf(),
            t.has_defaults(),
    {
        let id = ids::fresh_id();
        let now = clock::now();
        Task::with_identity(id, now, command, task_type)
    }

    /// Sets the priority.
    pub fn with_priority(self, priority: u8) -> (t: Task)
        ensures
            t == (Task { priority, ..self }),
    {
        let mut t = self;
        t.priority = priority;
        t
    }

    /// Sets the timeout in seconds.
    pub fn with_timeout(self, timeout: u64) -> (t: Task)
        ensures
            t == (Task { timeout, ..self }),
    {
        let mut t = self;
        t.timeout = timeout;
        t
    }

    /// Sets the retry count.
    pub fn with_retry_count(self, retry_count: u8) -> (t: Task)
        ensures
            t == (Task { retry_count, ..self }),
    {
        let mut t = self;
        t.retry_count = retry_count;
        t
    }

    /// Sets the working directory.
    pub fn with_working_dir(self, working_dir: String) -> (t: Task)
        ensures
            t == (Task { working_dir, ..self }),
    {
        let mut t = self;
        t.working_dir = working_dir;
        t
    }

    /// Sets an environment variable, replacing an earlier value of the same name.
    pub fn with_env_var(self, key: String, value: String) -> (t: Task)
        requires
            self.wf(),
        ensures
            t.wf(),
            t.env_vars@ == self.env_vars@.insert(key@, value@),
            t == (Task { env_vars: t.env_vars, ..self }),
    {
        let mut t = self;
        t.env_vars.insert(key, value);
        t
    }

    /// Adds an expected artifact.
    pub fn with_artifact(self, artifact: String) -> (t: Task)
        ensures
            t.artifacts_expected@ == self.artifacts_expected@.push(artifact),
            t == (Task { artifacts_expected: t.artifacts_expected, ..self }),
    {
        let mut t = self;
        t.artifacts_expected.push(artifact);
        t
    }

    /// Sets the batch the task belongs to.
    pub fn with_batch_id(self, batch_id: u128) -> (t: Task)
        ensures
            t == (Task { batch_id: Some(batch_id), ..self }),
    {
        let mut t = self;
        t.batch_id = Some(batch_id);
        t
    }

    /// Sets the task name.
    pub fn with_task_name(self, task_name: String) -> (t: Task)
        ensures
            t == (Task { task_name: Some(task_name), ..self }),
    {
        let mut t = self;
        t.task_name = Some(task_name);
        t
    }
}

/// Captured output of a command.
#[derive(Clone, Debug)]
pub struct TaskOutput {
    /// Standard output
    pub stdout: String,
    /// Standard error
    pub stderr: String,
    /// Exit code
    pub exit_code: Option<i32>,
}

/// The final result of executing a task.
#[derive(Clone, Debug)]
pub struct TaskResult {
    /// Task this result belongs to
    pub task_id: u128,
    /// Final status
    pub status: TaskStatus,
    /// Captured output
    pub output: TaskOutput,
    /// The command that produced this result
    pub command: String,
    /// Execution start time
    pub start_time: Timestamp,
    /// Execution end time
    pub end_time: Timestamp,
    /// Execution duration in milliseconds (0 when not recorded)
    pub duration_ms: i64,
    /// Number of retries used
    pub retries_used: u8,
    /// Artifact paths generated
    pub artifacts: Vec<String>,
    /// Error message if failed
    pub error_message: Option<String>,
}

/// The duration a result reports, in milliseconds: the recorded value when
/// positive, else the time between start and end.
pub open spec fn reported_duration_ms(r: TaskResult) -> int {
    if r.duration_ms > 0 {
        r.duration_ms as int
    } else {
        clock::elapsed_millis(r.start_time, r.end_time)
    }
}

impl TaskResult {
    /// Both times are `chrono` dates.
    pub open spec fn wf(&self) -> bool {
        self.start_time.wf() && self.end_time.wf()
    }

    /// Whether the task completed successfully.
    pub fn is_success(&self) -> (b: bool)
        ensures
            b == (self.status == TaskStatus::Completed),
    {
        self.status == TaskStatus::Completed
    }

    /// Whole seconds from start to end.
    pub fn duration_secs(&self) -> (r: i64)
        requires
            self.wf(),
        ensures
            r == clock::elapsed_secs(self.start_time, self.end_time),
    {
        clock::seconds_between(self.start_time, self.end_time)
    }

    /// Execution duration in milliseconds; computed from start and end when
    /// the recorded value is not positive (results written without it).
    pub fn duration_ms(&self) -> (r: i64)
        requires
            self.wf(),
        ensures
            r == reported_duration_ms(*self),
    {
        if self.duration_ms > 0 {
            self.duration_ms
        } else {
            clock::millis_between(self.start_time, self.end_time)
        }
    }
}

/// Heartbeat information for monitoring a running task.
#[derive(Clone, Debug)]
pub struct HeartbeatInfo {
    /// Task ID
    pub task_id: u128,
    /// Last heartbeat time
    pub last_heartbeat: Timestamp,
    /// Process ID
    pub pid: Option<u32>,
    /// Current progress (0-100)
    pub progress: u8,
}

/// A task within a batch manifest.
#[derive(Clone, Debug)]
pub struct TaskItem {
    /// Task name identifier
    pub task_name: String,
    /// Task description
    pub description: String,
    /// Command to execute
    pub command: String,
    /// Type of task
    pub task_type: TaskType,
    /// Timeout in seconds
    pub timeout: u64,
    /// Priority (0-255, lower is higher priority)
    pub priority: u8,
    /// Working directory for the command
    pub working_dir: Option<String>,
    /// Environment variables for the task
    pub env_vars: StringMap,
    /// Expected artifact files
    pub artifacts_expected: Vec<String>,
    /// Additional metadata
    pub metadata: StringMap,
}

/// A batch of tasks to execute.
#[derive(Debug)]
pub struct TaskManifest {
    /// Batch name identifier
    pub batch_name: String,
    /// Batch description
    pub description: String,
    /// Tasks in the batch
    pub tasks: Vec<TaskItem>,
}

/// Lifecycle state of a batch.
#[derive(Clone, Copy, Debug, PartialEq, Eq, Structural)]
pub enum BatchStatus {
    /// Being submitted
    Submitting,
    /// Running
    Running,
    /// Completed successfully
    Completed,
    /// Failed
    Failed,
    /// Cancelled
    Cancelled,
}

/// The name of a batch status.
pub open spec fn batch_status_text(s: BatchStatus) -> Seq<char> {
    match s {
        BatchStatus::Submitting => "Submitting"@,
        BatchStatus::Running => "Running"@,
        BatchStatus::Completed => "Completed"@,
        BatchStatus::Failed => "Failed"@,
        BatchStatus::Cancelled => "Cancelled"@,
    }
}

impl BatchStatus {
    /// The status name (`Submitting`, `Running`, ...).
    pub fn display_text(&self) -> (s: String)
        ensures
            s@ == batch_status_text(*self),
    {
        match self {
            BatchStatus::Submitting => "Submitting".to_owned(),
            BatchStatus::Running => "Running".to_owned(),
            BatchStatus::Completed => "Completed".to_owned(),
            BatchStatus::Failed => "Failed".to_owned(),
            BatchStatus::Cancelled => "Cancelled".to_owned(),
        }
    }
}

/// Progress of a batch.
#[derive(Clone, Debug)]
pub struct BatchProgress {
    /// Unique batch identifier
    pub batch_id: u128,
    /// Path to the manifest file
    pub manifest_path: String,
    /// Number of tasks in the batch
    pub total_tasks: usize,
    /// Index of the next task to submit
    pub current_index: usize,
    /// Submitted tasks: (index, task id, task name)
    pub submitted_tasks: Vec<(usize, u128, String)>,
    /// Completed tasks: (task id, status, task name)
    pub completed_tasks: Vec<(u128, TaskStatus, String)>,
    /// Batch status
    pub status: BatchStatus,
    /// Creation time
    pub created_at: Timestamp,
    /// Last update time
    pub updated_at: Timestamp,
}

} // verus!
