//! Offline task execution: the verified core of a client/daemon pair that
//! exchange tasks, status and results through shared directories.
pub mod base;
pub mod client;
pub mod numbers;
pub mod paths;
pub mod daemon;
pub mod interop;
pub mod text;
