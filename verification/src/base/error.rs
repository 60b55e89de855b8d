//! The errors of the library, each with the message it is shown with.
use vstd::prelude::*;

use crate::interop::ids::{id_text, id_to_text};
use crate::text::{self, cat, decimal_text};

verus! {

/// Errors of task submission, execution, storage and configuration. Errors
/// raised by the system or by a parser carry the text they were shown with.
#[derive(Clone, Debug)]
pub enum BifrostError {
    /// Task not found in queue
    TaskNotFound(u128),
    /// File lock operation failed
    LockError(String),
    /// JSON parsing/serialization error
    JsonError(String),
    /// Command execution failed
    ExecutionError(String),
    /// Heartbeat timeout detected
    HeartbeatTimeout(u128),
    /// Task execution timeout
    TaskTimeout(u64),
    /// Configuration file not found
    ConfigNotFound(String),
    /// Invalid configuration
    ConfigInvalid(String),
    /// I/O error
    IoError(String),
    /// YAML parsing error
    YamlError(String),
    /// Serialization error
    SerializationError(String),
    /// Queue operation failed
    QueueError(String),
    /// Artifact not found
    ArtifactNotFound(String),
    /// Process spawn failed
    ProcessSpawnError(String),
    /// Maximum retries exceeded
    MaxRetriesExceeded(u128),
    /// Task already exists
    TaskAlreadyExists(u128),
    /// Invalid task status transition
    InvalidStatusTransition { from: String, to: String },
}

/// Result type of the library's fallible operations.
pub type Result<T> = std::result::Result<T, BifrostError>;

/// The message an error is shown with.
pub open spec fn error_text(e: BifrostError) -> Seq<char> {
    match e {
        BifrostError::TaskNotFound(id) => "Task not found: "@ + id_text(id),
        BifrostError::LockError(m) => "File lock failed: "@ + m@,
        BifrostError::JsonError(m) => "JSON parse error: "@ + m@,
        BifrostError::ExecutionError(m) => "Command execution failed: "@ + m@,
        BifrostError::HeartbeatTimeout(id) => "Heartbeat timeout for task "@ + id_text(id),
        BifrostError::TaskTimeout(s) => "Task timeout after "@ + decimal_text(s as nat)
            + " seconds"@,
        BifrostError::ConfigNotFound(m) => "Config file not found: "@ + m@,
        BifrostError::ConfigInvalid(m) => "Invalid configuration: "@ + m@,
        BifrostError::IoError(m) => "I/O error: "@ + m@,
        BifrostError::YamlError(m) => "YAML parse error: "@ + m@,
        BifrostError::SerializationError(m) => "Serialization error: "@ + m@,
        BifrostError::QueueError(m) => "Queue operation failed: "@ + m@,
        BifrostError::ArtifactNotFound(m) => "Artifact not found: "@ + m@,
        BifrostError::ProcessSpawnError(m) => "Failed to spawn process: "@ + m@,
        BifrostError::MaxRetriesExceeded(id) => "Maximum retries exceeded for task "@ + id_text(
            id,
        ),
        BifrostError::TaskAlreadyExists(id) => "Task already exists: "@ + id_text(id),
        BifrostError::InvalidStatusTransition { from, to } => "Invalid status transition from "@
            + from@ + " to "@ + to@,
    }
}

impl BifrostError {
    /// The message the error is shown with.
    pub fn message(&self) -> (s: String)
        ensures
            s@ == error_text(*self),
    {
        match self {
            BifrostError::TaskNotFound(id) => cat("Task not found: ", id_to_text(*id).as_str()),
            BifrostError::LockError(m) => cat("File lock failed: ", m.as_str()),
            BifrostError::JsonError(m) => cat("JSON parse error: ", m.as_str()),
            BifrostError::ExecutionError(m) => cat("Command execution failed: ", m.as_str()),
            BifrostError::HeartbeatTimeout(id) => cat(
                "Heartbeat timeout for task ",
                id_to_text(*id).as_str(),
            ),
            BifrostError::TaskTimeout(s) => {
                let mut r = cat("Task timeout after ", text::u64_text(*s).as_str());
                r.append(" seconds");
                r
            },
            BifrostError::ConfigNotFound(m) => cat("Config file not found: ", m.as_str()),
            BifrostError::ConfigInvalid(m) => cat("Invalid configuration: ", m.as_str()),
            BifrostError::IoError(m) => cat("I/O error: ", m.as_str()),
            BifrostError::YamlError(m) => cat("YAML parse error: ", m.as_str()),
            BifrostError::SerializationError(m) => cat("Serialization error: ", m.as_str()),
            BifrostError::QueueError(m) => cat("Queue operation failed: ", m.as_str()),
            BifrostError::ArtifactNotFound(m) => cat("Artifact not found: ", m.as_str()),
            BifrostError::ProcessSpawnError(m) => cat("Failed to spawn process: ", m.as_str()),
            BifrostError::MaxRetriesExceeded(id) => cat(
                "Maximum retries exceeded for task ",
                id_to_text(*id).as_str(),
            ),
            BifrostError::TaskAlreadyExists(id) => cat(
                "Task already exists: ",
                id_to_text(*id).as_str(),
            ),
            BifrostError::InvalidStatusTransition { from, to } => {
                let mut r = cat("Invalid status transition from ", from.as_str());
                r.append(" to ");
                r.append(to.as_str());
                r
            },
        }
    }
}

} // verus!
