pub mod batch_tracker;
pub mod bridge;
pub mod config;
pub mod db;
pub mod error;
pub mod job;
pub mod lock;
pub mod models;
pub mod protocol;
pub mod settings;
pub mod ssh_bridge;
pub mod string_map;
