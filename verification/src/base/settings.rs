//! User settings (`~/.bifrost/settings.json`): where shared storage lives,
//! which transport reaches it, and the client and daemon tunables, with the
//! checks a settings file must pass.
use vstd::prelude::*;

use crate::interop::durations::{
    duration_bound, duration_in_range, duration_nanos_limit, format_duration, parse_duration,
    spec_parse_duration, Span,
};
use crate::paths::{joined, path_join};
use crate::text::{self, cat, decimal_text};

verus! {

/// How the client reaches the daemon's directories.
#[derive(Clone, Copy, Debug, PartialEq, Eq, Structural)]
pub enum Transport {
    /// Shared-storage bridge: both sides read and write the same directories.
    Shared,
    /// SSH bridge: the client reaches the target machine's directories over SSH.
    Ssh,
}

impl Transport {
    /// Whether the transport is SSH.
    pub fn is_ssh(&self) -> (b: bool)
        ensures
            b == (*self == Transport::Ssh),
    {
        match self {
            Transport::Ssh => true,
            Transport::Shared => false,
        }
    }
}

impl Default for Transport {
    fn default() -> (t: Transport)
        ensures
            t == Transport::Shared,
    {
        Transport::Shared
    }
}

/// SSH bridge configuration (used when the transport is SSH).
#[derive(Clone, Debug)]
pub struct SshSection {
    /// Target hostname or IP (required).
    pub host: Option<String>,
    /// SSH user (default: the current user).
    pub user: Option<String>,
    /// Directory on the target that plays the role of the shared root.
    pub remote_dir: Option<String>,
    /// SSH port (default: 22).
    pub port: Option<u16>,
    /// Connect timeout of each ssh invocation (default: 10s).
    pub connect_timeout: Option<Span>,
}

impl Default for SshSection {
    fn default() -> (s: SshSection)
        ensures
            s.host is None,
            s.user is None,
            s.remote_dir is None,
            s.port is None,
            s.connect_timeout is None,
    {
        SshSection { host: None, user: None, remote_dir: None, port: None, connect_timeout: None }
    }
}

/// Client tunables.
#[derive(Clone, Debug)]
pub struct ClientSection {
    pub poll_interval: Option<Span>,
    pub heartbeat_timeout: Option<Span>,
}

impl Default for ClientSection {
    fn default() -> (s: ClientSection)
        ensures
            s.poll_interval is None,
            s.heartbeat_timeout is None,
    {
        ClientSection { poll_interval: None, heartbeat_timeout: None }
    }
}

/// Daemon tunables.
#[derive(Clone, Debug)]
pub struct DaemonSection {
    pub poll_interval: Option<Span>,
    pub task_timeout: Option<Span>,
    pub max_retries: Option<u8>,
    pub heartbeat_interval: Option<Span>,
    pub max_concurrent: Option<usize>,
    pub working_dir: Option<String>,
}

impl Default for DaemonSection {
    fn default() -> (s: DaemonSection)
        ensures
            s.poll_interval is None,
            s.task_timeout is None,
            s.max_retries is None,
            s.heartbeat_interval is None,
            s.max_concurrent is None,
            s.working_dir is None,
    {
        DaemonSection {
            poll_interval: None,
            task_timeout: None,
            max_retries: None,
            heartbeat_interval: None,
            max_concurrent: None,
            working_dir: None,
        }
    }
}

/// The settings of a user.
#[derive(Clone, Debug)]
pub struct BifrostSettings {
    pub shared_storage: String,
    pub transport: Transport,
    pub ssh: Option<SshSection>,
    pub client: ClientSection,
    pub daemon: DaemonSection,
}

/// Errors of reading, writing and checking settings.
#[derive(Clone, Debug)]
pub enum SettingsError {
    /// I/O error, with its message.
    Io(String),
    /// JSON error, with its message.
    Json(String),
    /// A value that is not accepted, and why.
    Duration { value: String, reason: String },
}

/// The message a settings error is shown with.
pub open spec fn settings_error_text(e: SettingsError) -> Seq<char> {
    match e {
        SettingsError::Io(m) => "I/O error: "@ + m@,
        SettingsError::Json(m) => "JSON error: "@ + m@,
        SettingsError::Duration { value, reason } => "Invalid duration '"@ + value@ + "': "@
            + reason@,
    }
}

impl SettingsError {
    /// The message the error is shown with.
    pub fn message(&self) -> (s: String)
        ensures
            s@ == settings_error_text(*self),
    {
        match self {
            SettingsError::Io(m) => cat("I/O error: ", m.as_str()),
            SettingsError::Json(m) => cat("JSON error: ", m.as_str()),
            SettingsError::Duration { value, reason } => {
                let mut s = cat("Invalid duration '", value.as_str());
                s.append("': ");
                s.append(reason.as_str());
                s
            },
        }
    }
}

/// A duration written in settings (`2s`, `500ms`, ...), or the error
/// naming the text and why it was refused: by `humantime`, or, for a text
/// whose spans could add up to `u64::MAX + 1` seconds or more, as too large
/// (in the words `humantime` uses for a number too large).
pub fn parse_duration_str(s: &str) -> (r: Result<Span, SettingsError>)
    ensures
        duration_bound(s@) >= duration_nanos_limit() ==> (r matches Err(
            SettingsError::Duration { value, reason },
        ) && value@ == s@ && reason@ == too_large_reason()),
        duration_bound(s@) < duration_nanos_limit() ==> match spec_parse_duration(s@) {
            Ok(d) => r == Ok::<Span, SettingsError>(d),
            Err(why) => r matches Err(SettingsError::Duration { value, reason }) && value@ == s@
                && reason@ == why,
        },
{
    if !duration_in_range(s) {
        return Err(SettingsError::Duration { value: s.to_owned(), reason: too_large_text() });
    }
    match parse_duration(s) {
        Ok(d) => Ok(d),
        Err(e) => Err(SettingsError::Duration { value: s.to_owned(), reason: e }),
    }
}

/// The text a duration is written as in settings and configuration files
/// (`humantime`'s form, such as `1h 30m`); `humantime` reads it back as
/// the same duration.
pub fn duration_text(d: Span) -> (t: String)
    requires
        d.wf(),
    ensures
        spec_parse_duration(t@) == Ok::<Span, Seq<char>>(d),
{
    format_duration(d)
}

/// The settings directory under a home directory (`{home}/.bifrost`); with
/// no home, `.bifrost` relative to the working directory.
pub fn config_dir(home: Option<String>) -> (r: String)
    ensures
        r@ == joined(
            match home {
                Some(h) => h@,
                None => Seq::<char>::empty(),
            },
            ".bifrost"@,
        ),
{
    match home {
        Some(h) => path_join(h.as_str(), ".bifrost"),
        None => {
            proof {
                reveal_strlit("");
            }
            path_join("", ".bifrost")
        },
    }
}

/// The first check a settings value fails, as the offending value and the
/// reason; `None` when it passes them all.
pub open spec fn settings_problem(s: BifrostSettings) -> Option<(Seq<char>, Seq<char>)> {
    if s.daemon.max_retries matches Some(r) && r > 10 {
        Some((decimal_text(s.daemon.max_retries->0 as nat), "max_retries must be <= 10"@))
    } else if s.daemon.max_concurrent matches Some(c) && !(1 <= c <= 100) {
        Some((decimal_text(s.daemon.max_concurrent->0 as nat), "max_concurrent must be 1-100"@))
    } else if s.transport == Transport::Ssh && s.ssh is None {
        Some(("ssh"@, "transport=ssh requires an 'ssh' config section"@))
    } else if s.transport == Transport::Ssh && (s.ssh->0.host is None || s.ssh->0.remote_dir is None) {
        Some(("ssh"@, "ssh config requires 'host' and 'remote_dir'"@))
    } else {
        None
    }
}

/// Whether `s` are the default settings of `config_dir`: shared storage in
/// `{config_dir}/data`, the shared transport, no SSH section, and no client
/// or daemon tunable set.
pub open spec fn is_default_for(s: BifrostSettings, config_dir: Seq<char>) -> bool {
    &&& s.shared_storage@ == joined(config_dir, "data"@)
    &&& s.transport == Transport::Shared
    &&& s.ssh is None
    &&& s.client.poll_interval is None
    &&& s.client.heartbeat_timeout is None
    &&& s.daemon.poll_interval is None
    &&& s.daemon.task_timeout is None
    &&& s.daemon.max_retries is None
    &&& s.daemon.heartbeat_interval is None
    &&& s.daemon.max_concurrent is None
    &&& s.daemon.working_dir is None
}

impl BifrostSettings {
    /// The settings used when none are written: shared storage in
    /// `{config_dir}/data`, the shared transport, and no tunables set. They
    /// pass every check.
    pub fn defaults(config_dir: &str) -> (s: BifrostSettings)
        ensures
            is_default_for(s, config_dir@),
            settings_problem(s) is None,
    {
        BifrostSettings {
            shared_storage: path_join(config_dir, "data"),
            transport: Transport::Shared,
            ssh: None,
            client: ClientSection::default(),
            daemon: DaemonSection::default(),
        }
    }

    /// The settings file: `{config_dir}/settings.json`.
    pub fn path(config_dir: &str) -> (p: String)
        ensures
            p@ == joined(config_dir@, "settings.json"@),
    {
        path_join(config_dir, "settings.json")
    }

    /// Checks the settings: at most 10 retries, 1 to 100 concurrent tasks,
    /// and with the SSH transport an SSH section that names a host and a
    /// remote directory.
    pub fn validate(&self) -> (r: Result<(), SettingsError>)
        ensures
            match settings_problem(*self) {
                None => r is Ok,
                Some((v, why)) => r matches Err(SettingsError::Duration { value, reason })
                    && value@ == v && reason@ == why,
            },
    {
        if let Some(r) = self.daemon.max_retries {
            if r > 10 {
                return Err(
                    SettingsError::Duration {
                        value: text::u64_text(r as u64),
                        reason: "max_retries must be <= 10".to_owned(),
                    },
                );
            }
        }
        if let Some(c) = self.daemon.max_concurrent {
            if !(1 <= c && c <= 100) {
                return Err(
                    SettingsError::Duration {
                        value: text::u64_text(c as u64),
                        reason: "max_concurrent must be 1-100".to_owned(),
                    },
                );
            }
        }
        if self.transport.is_ssh() {
            match &self.ssh {
                None => {
                    return Err(
                        SettingsError::Duration {
                            value: "ssh".to_owned(),
                            reason: "transport=ssh requires an 'ssh' config section".to_owned(),
                        },
                    );
                },
                Some(ssh) => {
                    if ssh.host.is_none() || ssh.remote_dir.is_none() {
                        return Err(
                            SettingsError::Duration {
                                value: "ssh".to_owned(),
                                reason: "ssh config requires 'host' and 'remote_dir'".to_owned(),
                            },
                        );
                    }
                },
            }
        }
        Ok(())
    }
}

/// The settings in effect: those read from the settings file when they
/// were read and pass [`BifrostSettings::validate`], else the defaults.
pub fn settings_or_defaults(read: Option<BifrostSettings>, config_dir: &str) -> (s: BifrostSettings)
    ensures
        match read {
            Some(r) => if settings_problem(r) is None {
                s == r
            } else {
                is_default_for(s, config_dir@)
            },
            None => is_default_for(s, config_dir@),
        },
        settings_problem(s) is None,
{
    match read {
        Some(r) => match r.validate() {
            Ok(()) => r,
            Err(_) => BifrostSettings::defaults(config_dir),
        },
        None => BifrostSettings::defaults(config_dir),
    }
}


/// Why a duration text too large to read is refused: the text `humantime`
/// gives for a number too large.
pub open spec fn too_large_reason() -> Seq<char> {
    "number is too large or cannot be represented without a lack of precision (values below 1ns are not supported)"@
}

fn too_large_text() -> (t: String)
    ensures
        t@ == too_large_reason(),
{
    "number is too large or cannot be represented without a lack of precision (values below 1ns are not supported)".to_owned()
}

/// `dir` as the directory part of a path joined under it: `dir` with a
/// trailing `/` (nothing added to an empty `dir` or one that ends in `/`).
pub open spec fn dir_prefix(dir: Seq<char>) -> Seq<char> {
    if dir.len() == 0 || dir.last() == '/' {
        dir
    } else {
        dir + seq!['/']
    }
}

/// The settings file and the default shared storage sit side by side: both
/// are entries of the same directory, the settings directory
/// (`BifrostSettings::path` and `BifrostSettings::defaults` join
/// `settings.json` and `data` to it).
pub proof fn lemma_settings_beside_default_storage(config_dir: Seq<char>)
    ensures
        joined(config_dir, "settings.json"@) == dir_prefix(config_dir) + "settings.json"@,
        joined(config_dir, "data"@) == dir_prefix(config_dir) + "data"@,
{
    reveal_strlit("settings.json");
    reveal_strlit("data");
    if !(config_dir.len() == 0 || config_dir.last() == '/') {
        assert(config_dir + seq!['/'] + "settings.json"@ =~= dir_prefix(config_dir) + "settings.json"@);
        assert(config_dir + seq!['/'] + "data"@ =~= dir_prefix(config_dir) + "data"@);
    }
}

} // verus!
