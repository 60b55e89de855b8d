//! The daemon: executing tasks found in shared storage, scheduling them on
//! GPUs, watching for new task files, and reporting its heartbeat.
pub mod executor;
pub mod gpu_monitor;
pub mod gpu_scheduler;
pub mod gpu_task_processor;
pub mod heartbeat;
pub mod logger;
pub mod runner;
pub mod watcher;

use vstd::prelude::*;

use crate::base::config::DaemonConfig;
use crate::base::protocol::Protocol;

verus! {

/// The daemon's runtime state: its configuration and the layout of its
/// shared storage.
#[derive(Clone, Debug)]
pub struct Daemon {
    config: DaemonConfig,
    protocol: Protocol,
}

impl Daemon {
    /// The configuration.
    pub closed spec fn configuration(self) -> DaemonConfig {
        self.config
    }

    /// The layout of its shared storage.
    pub closed spec fn layout(self) -> Protocol {
        self.protocol
    }

    /// A daemon for `config`, over the shared storage it names (whose
    /// directories the caller creates).
    pub fn new(config: DaemonConfig) -> (r: Result<Daemon, String>)
        ensures
            r matches Ok(d) && d.configuration() == config && d.layout().wf() && d.layout().root()
                == config.shared_storage@,
    {
        let protocol = Protocol::new(config.shared_storage.clone());
        Ok(Daemon { config, protocol })
    }

    /// The daemon loop, which this daemon does not have: it always answers
    /// that the loop is not implemented.
    pub fn run(&self) -> (r: Result<(), String>)
        ensures
            r matches Err(m) && m@ == "Daemon run loop not implemented yet"@,
    {
        Err("Daemon run loop not implemented yet".to_owned())
    }
}

} // verus!
