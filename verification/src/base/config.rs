//! The YAML configurations of client and daemon, their defaults, and the
//! checks a configuration must pass once read.
use vstd::prelude::*;

use crate::interop::durations::{is_shorter, shorter, Span};
use crate::text::cat;

verus! {

/// Errors of reading and checking a configuration.
#[derive(Clone, Debug)]
pub enum ConfigError {
    /// The file could not be read, with the I/O error's message.
    IoError(String),
    /// The file is not valid YAML for the configuration, with the message.
    YamlError(String),
    /// A value is out of range, with the reason.
    DurationError(String),
}

/// The message a configuration error is shown with.
pub open spec fn config_error_text(e: ConfigError) -> Seq<char> {
    match e {
        ConfigError::IoError(m) => "Failed to read config file: "@ + m@,
        ConfigError::YamlError(m) => "Failed to parse YAML: "@ + m@,
        ConfigError::DurationError(m) => "Invalid duration format: "@ + m@,
    }
}

impl ConfigError {
    /// The message the error is shown with.
    pub fn message(&self) -> (s: String)
        ensures
            s@ == config_error_text(*self),
    {
        match self {
            ConfigError::IoError(m) => cat("Failed to read config file: ", m.as_str()),
            ConfigError::YamlError(m) => cat("Failed to parse YAML: ", m.as_str()),
            ConfigError::DurationError(m) => cat("Invalid duration format: ", m.as_str()),
        }
    }
}

/// The shortest poll interval accepted (100 ms).
pub open spec fn min_poll_interval() -> Span {
    Span { secs: 0, nanos: 100_000_000 }
}

/// Client configuration.
#[derive(Clone, Debug)]
pub struct ClientConfig {
    /// Shared storage path for task files
    pub shared_storage: String,
    /// Optional database file for local state
    pub database: Option<String>,
    /// Poll interval for checking new tasks (minimum 100ms)
    pub poll_interval: Span,
    /// Heartbeat timeout before considering the daemon dead
    pub heartbeat_timeout: Span,
}

impl Default for ClientConfig {
    fn default() -> (c: ClientConfig)
        ensures
            c.shared_storage@ == "/tmp/bifrost"@,
            c.database is None,
            c.poll_interval == (Span { secs: 2, nanos: 0 }),
            c.heartbeat_timeout == (Span { secs: 180, nanos: 0 }),
    {
        ClientConfig {
            shared_storage: "/tmp/bifrost".to_owned(),
            database: None,
            poll_interval: Span::from_secs(2),
            heartbeat_timeout: Span::from_secs(180),
        }
    }
}

impl ClientConfig {
    /// The checks a client configuration read from YAML must pass: a poll
    /// interval of at least 100 ms.
    pub fn validate(&self) -> (r: Result<(), ConfigError>)
        ensures
            shorter(self.poll_interval, min_poll_interval()) ==> (r matches Err(
                ConfigError::DurationError(m),
            ) && m@ == "poll_interval must be at least 100ms"@),
            !shorter(self.poll_interval, min_poll_interval()) ==> r is Ok,
    {
        if is_shorter(self.poll_interval, Span { secs: 0, nanos: 100_000_000 }) {
            return Err(ConfigError::DurationError("poll_interval must be at least 100ms".to_owned()));
        }
        Ok(())
    }
}

/// Daemon configuration.
#[derive(Clone, Debug)]
pub struct DaemonConfig {
    /// Shared storage path for task files
    pub shared_storage: String,
    /// Poll interval for checking new tasks (minimum 100ms)
    pub poll_interval: Span,
    /// Maximum task execution timeout
    pub task_timeout: Span,
    /// Maximum retry attempts for failed tasks (range: 0-10)
    pub max_retries: u8,
    /// Heartbeat interval for task monitoring
    pub heartbeat_interval: Span,
    /// Maximum concurrent tasks (range: 1-100)
    pub max_concurrent: usize,
    /// Working directory for task execution
    pub working_dir: String,
}

impl Default for DaemonConfig {
    fn default() -> (c: DaemonConfig)
        ensures
            c.shared_storage@ == "/tmp/bifrost"@,
            c.poll_interval == (Span { secs: 0, nanos: 500_000_000 }),
            c.task_timeout == (Span { secs: 300, nanos: 0 }),
            c.max_retries == 3,
            c.heartbeat_interval == (Span { secs: 60, nanos: 0 }),
            c.max_concurrent == 10,
            c.working_dir@ == "/tmp/bifrost/work"@,
    {
        DaemonConfig {
            shared_storage: "/tmp/bifrost".to_owned(),
            poll_interval: Span { secs: 0, nanos: 500_000_000 },
            task_timeout: Span::from_secs(300),
            max_retries: 3,
            heartbeat_interval: Span::from_secs(60),
            max_concurrent: 10,
            working_dir: "/tmp/bifrost/work".to_owned(),
        }
    }
}

/// The first check a daemon configuration fails, as its message.
pub open spec fn daemon_config_problem(c: DaemonConfig) -> Option<Seq<char>> {
    if shorter(c.poll_interval, min_poll_interval()) {
        Some("poll_interval must be at least 100ms"@)
    } else if c.max_retries > 10 {
        Some("max_retries must be between 0 and 10"@)
    } else if c.max_concurrent < 1 || c.max_concurrent > 100 {
        Some("max_concurrent must be between 1 and 100"@)
    } else {
        None
    }
}

impl DaemonConfig {
    /// The checks a daemon configuration read from YAML must pass: a poll
    /// interval of at least 100 ms, at most 10 retries, and 1 to 100
    /// concurrent tasks.
    pub fn validate(&self) -> (r: Result<(), ConfigError>)
        ensures
            match daemon_config_problem(*self) {
                None => r is Ok,
                Some(why) => r matches Err(ConfigError::DurationError(m)) && m@ == why,
            },
    {
        if is_shorter(self.poll_interval, Span { secs: 0, nanos: 100_000_000 }) {
            return Err(ConfigError::DurationError("poll_interval must be at least 100ms".to_owned()));
        }
        if self.max_retries > 10 {
            return Err(ConfigError::DurationError("max_retries must be between 0 and 10".to_owned()));
        }
        if self.max_concurrent < 1 || self.max_concurrent > 100 {
            return Err(
                ConfigError::DurationError("max_concurrent must be between 1 and 100".to_owned()),
            );
        }
        Ok(())
    }
}

/// The default configurations pass their checks.
pub proof fn lemma_defaults_pass(c: ClientConfig, d: DaemonConfig)
    requires
        c.poll_interval == (Span { secs: 2, nanos: 0 }),
        d.poll_interval == (Span { secs: 0, nanos: 500_000_000 }),
        d.max_retries == 3,
        d.max_concurrent == 10,
    ensures
        !shorter(c.poll_interval, min_poll_interval()),
        daemon_config_problem(d) is None,
{
}

} // verus!
