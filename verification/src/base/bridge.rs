//! Which bridge a client uses: the shared-storage protocol, or SSH when the
//! settings ask for it.
use vstd::prelude::*;

use crate::base::error::BifrostError;
use crate::base::protocol::Protocol;
use crate::base::settings::{BifrostSettings, Transport};
use crate::base::ssh_bridge::SshBridge;

verus! {

/// The bridge the settings select.
#[derive(Clone, Debug)]
pub enum BridgeChoice {
    /// The shared-storage protocol over the shared root.
    Shared(Protocol),
    /// The SSH transport.
    Ssh(SshBridge),
}

/// The bridge the settings select: SSH when the transport is SSH (which
/// needs an SSH section naming a host and a remote directory), the
/// shared-storage protocol over the shared root otherwise.
pub fn create_bridge(settings: &BifrostSettings) -> (r: Result<BridgeChoice, BifrostError>)
    ensures
        settings.transport == Transport::Shared ==> (r matches Ok(BridgeChoice::Shared(p)) && p.wf()
            && p.root() == settings.shared_storage@),
        settings.transport == Transport::Ssh && settings.ssh is None ==> (r matches Err(
            BifrostError::ConfigInvalid(m),
        ) && m@ == "transport=ssh but no ssh section"@),
        settings.transport == Transport::Ssh ==> (settings.ssh matches Some(c) ==> {
            &&& c.host is None ==> (r matches Err(BifrostError::ConfigInvalid(m)) && m@
                == "ssh.host required"@)
            &&& c.host is Some && c.remote_dir is None ==> (r matches Err(
                BifrostError::ConfigInvalid(m),
            ) && m@ == "ssh.remote_dir required"@)
            &&& c.host is Some && c.remote_dir is Some ==> (r matches Ok(BridgeChoice::Ssh(b))
                && b.host_view() == c.host->0@ && b.remote_root() == c.remote_dir->0@
                && b.port_view() == c.port && !b.runs_locally())
        }),
{
    if settings.transport.is_ssh() {
        match &settings.ssh {
            None => Err(BifrostError::ConfigInvalid("transport=ssh but no ssh section".to_owned())),
            Some(c) => match SshBridge::new(c) {
                Ok(b) => Ok(BridgeChoice::Ssh(b)),
                Err(e) => Err(e),
            },
        }
    } else {
        Ok(BridgeChoice::Shared(Protocol::new(settings.shared_storage.clone())))
    }
}

} // verus!
