//! The SSH transport: the client reaches the target's directories through
//! `ssh` invocations. This module holds what those invocations are made of
//! (the ssh arguments, the remote shell commands with every path quoted)
//! and how their outputs are read; running `ssh` is the caller's.
use vstd::prelude::*;

use crate::base::error::BifrostError;
use crate::base::models::Task;
use crate::base::protocol::task_file_name_of;
use crate::base::settings::SshSection;
use crate::interop::argv::string_views;
use crate::interop::clock::{compact_stamp, spec_compact_stamp};
use crate::interop::ids::{id_text, id_to_text};
use crate::numbers::{parse_i64, parsed_i64, trim, trim_view};
use crate::paths::{joined, path_join};
use crate::text::{self, cat, decimal_text};

verus! {

/// `s` with each single quote written as `'\''` (close the quoted text, an
/// escaped quote, reopen).
pub open spec fn escape_quotes(s: Seq<char>) -> Seq<char>
    decreases s.len(),
{
    if s.len() == 0 {
        s
    } else {
        escape_quotes(s.drop_last()) + if s.last() == '\'' {
            seq!['\'', '\\', '\'', '\'']
        } else {
            seq![s.last()]
        }
    }
}

/// `s` as one word of a POSIX shell command: between single quotes.
pub open spec fn quoted(s: Seq<char>) -> Seq<char> {
    seq!['\''] + escape_quotes(s) + seq!['\'']
}

/// `s` quoted for a remote shell command (see [`quoted`]).
pub fn sh_quote(s: &str) -> (r: String)
    ensures
        r@ == quoted(s@),
{
    proof {
        reveal_strlit("'");
        reveal_strlit("'\\''");
    }
    let n = s.unicode_len();
    let mut r = "'".to_owned();
    let mut i: usize = 0;
    while i < n
        invariant
            n == s@.len(),
            i <= n,
            r@ == seq!['\''] + escape_quotes(s@.take(i as int)),
        decreases n - i,
    {
        proof {
            assert(s@.take(i + 1).drop_last() =~= s@.take(i as int));
        }
        let c = s.get_char(i);
        let ghost before = r@;
        proof {
            assert(s@.take(i + 1).last() == c);
        }
        if c == '\'' {
            let esc = "'\\''";
            proof {
                reveal_strlit("'\\''");
                assert(esc@.len() == 4);
                assert(esc@ =~= seq!['\'', '\\', '\'', '\'']);
            }
            r.append(esc);
        } else {
            let one = s.substring_char(i, i + 1);
            proof {
                assert(one@ =~= seq![c]);
            }
            r.append(one);
        }
        proof {
            assert(r@ =~= seq!['\''] + escape_quotes(s@.take(i + 1)));
        }
        i = i + 1;
    }
    proof {
        assert(s@.take(n as int) =~= s@);
    }
    r.append("'");
    r
}

/// The text before the last `/` of a remote path, or `.` when it has none.
pub open spec fn remote_parent(p: Seq<char>) -> Seq<char> {
    if exists|k: int| 0 <= k < p.len() && p[k] == '/' {
        let k = choose|k: int|
            0 <= k < p.len() && p[k] == '/' && forall|j: int| k < j < p.len() ==> p[j] != '/';
        p.subrange(0, k)
    } else {
        seq!['.']
    }
}

/// The text before the last `/` of `p`, or `.` (see [`remote_parent`]).
pub fn parent_dir(p: &str) -> (r: String)
    ensures
        r@ == remote_parent(p@),
{
    let n = p.unicode_len();
    let mut k = n;
    while k > 0 && p.get_char(k - 1) != '/'
        invariant
            n == p@.len(),
            k <= n,
            forall|j: int| k <= j < n ==> p@[j] != '/',
        decreases k,
    {
        k = k - 1;
    }
    if k == 0 {
        proof {
            reveal_strlit(".");
            assert(!exists|j: int| 0 <= j < p@.len() && p@[j] == '/');
        }
        ".".to_owned()
    } else {
        proof {
            let w = (k - 1) as int;
            assert(0 <= w < p@.len() && p@[w] == '/' && forall|j: int| w < j < p@.len() ==> p@[j] != '/');
            let c = choose|c: int|
                0 <= c < p@.len() && p@[c] == '/' && forall|j: int| c < j < p@.len() ==> p@[j] != '/';
            assert(c == w) by {
                if c < w {
                    assert(p@[w] != '/');
                }
                if w < c {
                    assert(p@[c] != '/');
                }
            }
        }
        p.substring_char(0, k - 1).to_owned()
    }
}

/// The shell command that writes its stdin to `path` atomically: into a
/// `.tmp` sibling first, then renamed over `path`.
pub open spec fn write_command_of(path: Seq<char>) -> Seq<char> {
    let tmp = path + ".tmp"@;
    "mkdir -p "@ + quoted(remote_parent(path)) + " && cat > "@ + quoted(tmp) + " && mv "@ + quoted(
        tmp,
    ) + " "@ + quoted(path)
}

/// The shell command that writes its stdin to `path` atomically.
pub fn write_command(path: &str) -> (r: String)
    ensures
        r@ == write_command_of(path@),
{
    let dir = parent_dir(path);
    let tmp = cat(path, ".tmp");
    let mut r = cat("mkdir -p ", sh_quote(dir.as_str()).as_str());
    r.append(" && cat > ");
    r.append(sh_quote(tmp.as_str()).as_str());
    r.append(" && mv ");
    r.append(sh_quote(tmp.as_str()).as_str());
    r.append(" ");
    r.append(sh_quote(path).as_str());
    r
}

/// The error of a remote invocation that exited unsuccessfully: what
/// failed, the exit status, and its stderr trimmed.
pub open spec fn remote_failure_of(what: Seq<char>, status: Seq<char>, stderr: Seq<char>) -> Seq<char> {
    "remote "@ + what + " failed (exit "@ + status + "): "@ + trim_view(stderr)
}

/// The outcome of a remote invocation: its stdout when it exited
/// successfully, else an `ExecutionError` naming what failed (`command` or
/// `write`), the exit status and the trimmed stderr.
pub fn remote_outcome(what: &str, success: bool, status: &str, stdout: String, stderr: &str) -> (r:
    Result<String, BifrostError>)
    ensures
        success ==> r == Ok::<String, BifrostError>(stdout),
        !success ==> (r matches Err(BifrostError::ExecutionError(m)) && m@ == remote_failure_of(
            what@,
            status@,
            stderr@,
        )),
{
    if success {
        return Ok(stdout);
    }
    let mut m = cat("remote ", what);
    m.append(" failed (exit ");
    m.append(status);
    m.append("): ");
    m.append(trim(stderr).as_str());
    Err(BifrostError::ExecutionError(m))
}

/// A remote file's content, `None` when reading it failed as an execution
/// error (the file is missing), other errors passed on.
pub fn file_or_absent(r: Result<String, BifrostError>) -> (o: Result<Option<String>, BifrostError>)
    ensures
        match r {
            Ok(s) => o == Ok::<Option<String>, BifrostError>(Some(s)),
            Err(BifrostError::ExecutionError(_)) => o == Ok::<Option<String>, BifrostError>(None),
            Err(e) => o == Err::<Option<String>, BifrostError>(e),
        },
{
    match r {
        Ok(s) => Ok(Some(s)),
        Err(BifrostError::ExecutionError(m)) => Ok(None),
        Err(e) => Err(e),
    }
}

/// The age the remote heartbeat command printed: a whole number of seconds
/// that is not negative (`-1` stands for a missing heartbeat).
pub fn age_from_output(out: &str) -> (r: Option<u64>)
    ensures
        match parsed_i64(trim_view(out@)) {
            Some(a) => if a >= 0 {
                r == Some(a as u64)
            } else {
                r is None
            },
            None => r is None,
        },
{
    let t = trim(out);
    match parse_i64(t.as_str()) {
        Some(a) => if a >= 0 {
            Some(a as u64)
        } else {
            None
        },
        None => None,
    }
}

/// The text the remote task lookup printed, or `TaskNotFound` when it
/// printed nothing but white space.
pub fn task_text_or_missing(out: String, task_id: u128) -> (r: Result<String, BifrostError>)
    ensures
        trim_view(out@).len() == 0 ==> (r matches Err(e) && e == BifrostError::TaskNotFound(task_id)),
        trim_view(out@).len() != 0 ==> r == Ok::<String, BifrostError>(out),
{
    let t = trim(out.as_str());
    if t.unicode_len() == 0 {
        Err(BifrostError::TaskNotFound(task_id))
    } else {
        Ok(out)
    }
}

/// The SSH transport's target: host, user, port, remote root and connect
/// timeout; `local` runs the remote commands through a local shell instead.
#[derive(Clone, Debug)]
pub struct SshBridge {
    host: String,
    user: Option<String>,
    port: Option<u16>,
    remote_dir: String,
    connect_timeout: u64,
    local: bool,
}

impl SshBridge {
    /// The target host.
    pub closed spec fn host_view(self) -> Seq<char> {
        self.host@
    }

    /// The SSH user, if one is set.
    pub closed spec fn user_view(self) -> Option<Seq<char>> {
        match self.user {
            Some(u) => Some(u@),
            None => None,
        }
    }

    /// The SSH port, if one is set.
    pub closed spec fn port_view(self) -> Option<u16> {
        self.port
    }

    /// The remote root.
    pub closed spec fn remote_root(self) -> Seq<char> {
        self.remote_dir@
    }

    /// The connect timeout in seconds.
    pub closed spec fn timeout_secs(self) -> u64 {
        self.connect_timeout
    }

    /// Whether remote commands run through a local shell.
    pub closed spec fn runs_locally(self) -> bool {
        self.local
    }

    /// The bridge an SSH section describes: it must name a host and a
    /// remote directory; the connect timeout is its whole seconds, 10 when
    /// unset.
    pub fn new(cfg: &SshSection) -> (r: Result<SshBridge, BifrostError>)
        ensures
            cfg.host is None ==> (r matches Err(BifrostError::ConfigInvalid(m)) && m@
                == "ssh.host required"@),
            cfg.host is Some && cfg.remote_dir is None ==> (r matches Err(
                BifrostError::ConfigInvalid(m),
            ) && m@ == "ssh.remote_dir required"@),
            cfg.host is Some && cfg.remote_dir is Some ==> (r matches Ok(b) && b.host_view()
                == cfg.host->0@ && b.remote_root() == cfg.remote_dir->0@ && b.port_view()
                == cfg.port && b.user_view() == match cfg.user {
                Some(u) => Some(u@),
                None => None::<Seq<char>>,
            } && b.timeout_secs() == match cfg.connect_timeout {
                Some(d) => d.secs,
                None => 10u64,
            } && !b.runs_locally()),
    {
        let host = match &cfg.host {
            Some(h) => h.clone(),
            None => {
                return Err(BifrostError::ConfigInvalid("ssh.host required".to_owned()));
            },
        };
        let remote_dir = match &cfg.remote_dir {
            Some(d) => d.clone(),
            None => {
                return Err(BifrostError::ConfigInvalid("ssh.remote_dir required".to_owned()));
            },
        };
        let user = match &cfg.user {
            Some(u) => Some(u.clone()),
            None => None,
        };
        let connect_timeout = match cfg.connect_timeout {
            Some(d) => d.secs,
            None => 10,
        };
        Ok(SshBridge { host, user, port: cfg.port, remote_dir, connect_timeout, local: false })
    }

    /// The same bridge, running its remote commands through a local shell
    /// in `remote_dir` (for tests without an SSH server).
    pub fn local(remote_dir: String) -> (b: SshBridge)
        ensures
            b.remote_root() == remote_dir@,
            b.runs_locally(),
            b.host_view() == "localhost"@,
            b.user_view() is None,
            b.port_view() is None,
            b.timeout_secs() == 5,
    {
        SshBridge {
            host: "localhost".to_owned(),
            user: None,
            port: None,
            remote_dir,
            connect_timeout: 5,
            local: true,
        }
    }

    /// Whether remote commands run through a local shell.
    pub fn is_local(&self) -> (b: bool)
        ensures
            b == self.runs_locally(),
    {
        self.local
    }

    /// The remote root.
    pub fn remote_dir(&self) -> (r: &str)
        ensures
            r@ == self.remote_root(),
    {
        self.remote_dir.as_str()
    }

    /// `user@host`, or the host when no user is set.
    pub fn target(&self) -> (r: String)
        ensures
            r@ == match self.user_view() {
                Some(u) => u + seq!['@'] + self.host_view(),
                None => self.host_view(),
            },
    {
        match &self.user {
            Some(u) => {
                proof {
                    reveal_strlit("@");
                }
                let mut t = cat(u.as_str(), "@");
                t.append(self.host.as_str());
                t
            },
            None => self.host.clone(),
        }
    }

    /// The arguments of `ssh` before the remote command: batch mode, the
    /// connect timeout, the port when one is set, and the target.
    pub fn ssh_args(&self) -> (r: Vec<String>)
        ensures
            r@.len() == (if self.port_view() is Some { 6int } else { 4int }) + 1,
            r@[0]@ == "-o"@,
            r@[1]@ == "BatchMode=yes"@,
            r@[2]@ == "-o"@,
            r@[3]@ == "ConnectTimeout="@ + decimal_text(self.timeout_secs() as nat),
            self.port_view() matches Some(p) ==> r@[4]@ == "-p"@ && r@[5]@ == decimal_text(
                p as nat,
            ),
            r@.last()@ == match self.user_view() {
                Some(u) => u + seq!['@'] + self.host_view(),
                None => self.host_view(),
            },
    {
        let mut args: Vec<String> = Vec::new();
        args.push("-o".to_owned());
        args.push("BatchMode=yes".to_owned());
        args.push("-o".to_owned());
        args.push(cat("ConnectTimeout=", text::u64_text(self.connect_timeout).as_str()));
        if let Some(p) = self.port {
            args.push("-p".to_owned());
            args.push(text::u64_text(p as u64));
        }
        args.push(self.target());
        args
    }

    /// The path of `name` under the remote directory `subdir`.
    pub fn remote_path(&self, subdir: &str, name: &str) -> (r: String)
        ensures
            r@ == joined(joined(self.remote_root(), subdir@), name@),
    {
        let d = path_join(self.remote_dir.as_str(), subdir);
        path_join(d.as_str(), name)
    }

    /// Where `task` is submitted on the target, as in shared storage;
    /// `None` when its time has no calendar date.
    pub fn task_path(&self, task: &Task) -> (r: Option<String>)
        ensures
            match spec_compact_stamp(task.timestamp.secs, task.timestamp.nanos) {
                None => r is None,
                Some(stamp) => r matches Some(p) && p@ == joined(
                    joined(self.remote_root(), "commands"@),
                    task_file_name_of(stamp, task.task_id),
                ),
            },
    {
        let stamp = match compact_stamp(task.timestamp) {
            Some(s) => s,
            None => {
                return None;
            },
        };
        proof {
            reveal_strlit("_");
        }
        let mut name = stamp;
        name.append("_");
        name.append(id_to_text(task.task_id).as_str());
        name.append(".json");
        Some(self.remote_path("commands", name.as_str()))
    }

    /// The command that prints a remote file (failing when it is missing).
    pub fn read_file_command(&self, subdir: &str, filename: &str) -> (r: String)
        ensures
            r@ == "cat "@ + quoted(joined(joined(self.remote_root(), subdir@), filename@)),
    {
        let p = self.remote_path(subdir, filename);
        cat("cat ", sh_quote(p.as_str()).as_str())
    }

    /// The command that deletes every file of the remote directory `subdir`
    /// whose name holds the task id.
    pub fn remove_matching_command(&self, subdir: &str, task_id: u128) -> (r: String)
        ensures
            ({
                let base = quoted(joined(self.remote_root(), subdir@));
                r@ == "ls "@ + base + " 2>/dev/null | grep "@ + quoted(id_text(task_id))
                    + " | while read f; do rm -f "@ + base + "/\"$f\"; done"@
            }),
    {
        let base = sh_quote(path_join(self.remote_dir.as_str(), subdir).as_str());
        let mut r = cat("ls ", base.as_str());
        r.append(" 2>/dev/null | grep ");
        r.append(sh_quote(id_to_text(task_id).as_str()).as_str());
        r.append(" | while read f; do rm -f ");
        r.append(base.as_str());
        r.append("/\"$f\"; done");
        r
    }

    /// The command that prints the first task file of `task_id` in the
    /// remote `commands/`.
    pub fn read_task_command(&self, task_id: u128) -> (r: String)
        ensures
            ({
                let base = quoted(joined(self.remote_root(), "commands"@));
                r@ == "ls "@ + base + " 2>/dev/null | grep "@ + quoted(id_text(task_id))
                    + " | grep '\\.json$' | head -1 | while read f; do cat "@ + base
                    + "/\"$f\"; done"@
            }),
    {
        let base = sh_quote(path_join(self.remote_dir.as_str(), "commands").as_str());
        let mut r = cat("ls ", base.as_str());
        r.append(" 2>/dev/null | grep ");
        r.append(sh_quote(id_to_text(task_id).as_str()).as_str());
        r.append(" | grep '\\.json$' | head -1 | while read f; do cat ");
        r.append(base.as_str());
        r.append("/\"$f\"; done");
        r
    }

    /// The command that prints every task file of the remote `commands/`,
    /// each after a `===FILE===` line naming it.
    pub fn list_pending_command(&self) -> (r: String)
        ensures
            ({
                let base = quoted(joined(self.remote_root(), "commands"@));
                r@ == "ls "@ + base
                    + " 2>/dev/null | grep '\\.json$' | while read f; do echo \"===FILE===$f\"; cat "@
                    + base + "/\"$f\"; echo; done"@
            }),
    {
        let base = sh_quote(path_join(self.remote_dir.as_str(), "commands").as_str());
        let mut r = cat("ls ", base.as_str());
        r.append(" 2>/dev/null | grep '\\.json$' | while read f; do echo \"===FILE===$f\"; cat ");
        r.append(base.as_str());
        r.append("/\"$f\"; echo; done");
        r
    }

    /// The command that prints the age in seconds of the remote heartbeat
    /// file, or `-1` when there is none; both clocks read are the target's.
    pub fn heartbeat_age_command(&self) -> (r: String)
        ensures
            ({
                let hb = quoted(joined(self.remote_root(), "heartbeat.json"@));
                r@ == "test -f "@ + hb + " && echo $(( $(date +%s) - $(stat -c %Y "@ + hb
                    + ") )) || echo -1"@
            }),
    {
        let hb = sh_quote(path_join(self.remote_dir.as_str(), "heartbeat.json").as_str());
        let mut r = cat("test -f ", hb.as_str());
        r.append(" && echo $(( $(date +%s) - $(stat -c %Y ");
        r.append(hb.as_str());
        r.append(") )) || echo -1");
        r
    }
}

/// The marker the listing command prints before each task file.
pub open spec fn file_marker() -> Seq<char> {
    "===FILE==="@
}

/// The first position at or after `from` where `p` occurs in `s`.
pub open spec fn first_occurrence_from(s: Seq<char>, p: Seq<char>, from: int) -> Option<int>
    decreases s.len() + 1 - from,
{
    if from < 0 || from > s.len() {
        None
    } else if text::occurs_at(s, p, from) {
        Some(from)
    } else {
        first_occurrence_from(s, p, from + 1)
    }
}

/// `s[from..]` split at each occurrence of the non-empty `sep`, as
/// `str::split` splits it.
#[verifier::opaque]
pub open spec fn split_from(s: Seq<char>, sep: Seq<char>, from: int) -> Seq<Seq<char>>
    decreases s.len() - from,
{
    match first_occurrence_from(s, sep, from) {
        Some(i) => if sep.len() > 0 && i >= from && i + sep.len() <= s.len() {
            seq![s.subrange(from, i)] + split_from(s, sep, i + sep.len())
        } else {
            seq![s.subrange(from, s.len() as int)]
        },
        None => seq![s.subrange(from, s.len() as int)],
    }
}

/// The text after the first line break of a chunk, if it has one.
pub open spec fn after_first_line(c: Seq<char>) -> Option<Seq<char>> {
    if exists|k: int| 0 <= k < c.len() && c[k] == '\n' {
        let k = choose|k: int| 0 <= k < c.len() && c[k] == '\n' && forall|j: int| 0 <= j < k ==> c[j] != '\n';
        Some(c.subrange(k + 1, c.len() as int))
    } else {
        None
    }
}

/// The documents of the chunks: each chunk's text after its first line.
pub open spec fn chunk_documents(chunks: Seq<Seq<char>>) -> Seq<Seq<char>>
    decreases chunks.len(),
{
    if chunks.len() == 0 {
        Seq::empty()
    } else {
        let rest = chunk_documents(chunks.drop_last());
        match after_first_line(chunks.last()) {
            Some(d) => rest.push(d),
            None => rest,
        }
    }
}

/// The task documents the listing command printed: the output split at
/// each `===FILE===` marker, the text before the first marker dropped, and
/// of each chunk the text after its first line (the file name).
pub open spec fn listing_documents_of(out: Seq<char>) -> Seq<Seq<char>> {
    chunk_documents(split_from(out, file_marker(), 0).drop_first())
}

fn find_from(s: &str, p: &str, from: usize) -> (r: Option<usize>)
    requires
        from <= s@.len(),
    ensures
        match r {
            Some(i) => first_occurrence_from(s@, p@, from as int) == Some(i as int) && from <= i
                && i + p@.len() <= s@.len(),
            None => first_occurrence_from(s@, p@, from as int) is None,
        },
{
    let n = s.unicode_len();
    let mut i = from;
    while i < n
        invariant
            from <= i <= n,
            n == s@.len(),
            first_occurrence_from(s@, p@, from as int) == first_occurrence_from(s@, p@, i as int),
        decreases n - i,
    {
        if text::occurs_at_exec(s, p, i) {
            return Some(i);
        }
        i = i + 1;
    }
    if text::occurs_at_exec(s, p, n) {
        return Some(n);
    }
    proof {
        assert(first_occurrence_from(s@, p@, n + 1) is None);
    }
    None
}

proof fn lemma_split_at(s: Seq<char>, sep: Seq<char>, from: int, i: int)
    requires
        sep.len() > 0,
        0 <= from <= i,
        first_occurrence_from(s, sep, from) == Some(i),
        i + sep.len() <= s.len(),
    ensures
        split_from(s, sep, from) == seq![s.subrange(from, i)] + split_from(s, sep, i + sep.len()),
{
    reveal(split_from);
}

proof fn lemma_split_end(s: Seq<char>, sep: Seq<char>, from: int)
    requires
        first_occurrence_from(s, sep, from) is None,
    ensures
        split_from(s, sep, from) == seq![s.subrange(from, s.len() as int)],
{
    reveal(split_from);
}

proof fn lemma_split_nonempty(s: Seq<char>, sep: Seq<char>, from: int)
    ensures
        split_from(s, sep, from).len() >= 1,
{
    reveal(split_from);
}

fn document_of_chunk(c: &str) -> (r: Option<String>)
    ensures
        match after_first_line(c@) {
            Some(d) => r matches Some(x) && x@ == d,
            None => r is None,
        },
{
    let n = c.unicode_len();
    let mut k: usize = 0;
    while k < n && c.get_char(k) != '\n'
        invariant
            k <= n == c@.len(),
            forall|j: int| 0 <= j < k ==> c@[j] != '\n',
        decreases n - k,
    {
        k = k + 1;
    }
    if k == n {
        return None;
    }
    proof {
        let w = choose|w: int| 0 <= w < c@.len() && c@[w] == '\n' && forall|j: int| 0 <= j < w ==> c@[j] != '\n';
        assert(w == k) by {
            if w < k {
            }
            if k < w {
                assert(c@[k as int] == '\n');
            }
        }
    }
    Some(c.substring_char(k + 1, n).to_owned())
}

/// The task documents the listing command printed (see
/// [`listing_documents_of`]).
pub fn listing_documents(out: &str) -> (r: Vec<String>)
    ensures
        string_views(r@) == listing_documents_of(out@),
{
    let marker = "===FILE===";
    proof {
        reveal_strlit("===FILE===");
    }
    let n = out.unicode_len();
    let mut chunks: Vec<String> = Vec::new();
    let mut from: usize = 0;
    assert(file_marker().len() == 10);
    let mut done = false;
    while !done
        invariant
            n == out@.len(),
            from <= n,
            marker@ == file_marker(),
            file_marker().len() == 10,
            !done ==> split_from(out@, file_marker(), 0) == string_views(chunks@) + split_from(
                out@,
                file_marker(),
                from as int,
            ),
            done ==> split_from(out@, file_marker(), 0) == string_views(chunks@),
        decreases (if done { 0int } else { 1int }) + n - from,
    {
        let ghost before = string_views(chunks@);
        match find_from(out, marker, from) {
            None => {
                let piece = out.substring_char(from, n).to_owned();
                proof {
                    lemma_split_end(out@, file_marker(), from as int);
                }
                chunks.push(piece);
                proof {
                    assert(string_views(chunks@) =~= before + seq![out@.subrange(from as int, n as int)]);
                }
                done = true;
            },
            Some(i) => {
                let piece = out.substring_char(from, i).to_owned();
                proof {
                    lemma_split_at(out@, file_marker(), from as int, i as int);
                }
                chunks.push(piece);
                proof {
                    let rest = split_from(out@, file_marker(), i + 10);
                    assert(string_views(chunks@) =~= before.push(out@.subrange(from as int, i as int)));
                    assert(before + (seq![out@.subrange(from as int, i as int)] + rest) =~= string_views(chunks@) + rest);
                }
                from = i + 10;
            },
        }
    }
    let mut docs: Vec<String> = Vec::new();
    let mut k: usize = 1;
    let ghost cv = string_views(chunks@);
    proof {
        lemma_split_nonempty(out@, file_marker(), 0);
        assert(cv.drop_first().take(0) =~= Seq::<Seq<char>>::empty());
    }
    while k < chunks.len()
        invariant
            1 <= k <= chunks@.len(),
            cv == string_views(chunks@),
            string_views(docs@) == chunk_documents(cv.drop_first().take(k - 1)),
        decreases chunks@.len() - k,
    {
        proof {
            assert(cv.drop_first().take(k as int).drop_last() =~= cv.drop_first().take(k - 1));
            assert(cv.drop_first().take(k as int).last() == chunks@[k as int]@);
        }
        match document_of_chunk(chunks[k].as_str()) {
            Some(d) => {
                let ghost b = docs@;
                docs.push(d);
                proof {
                    assert(string_views(docs@) =~= string_views(b).push(d@));
                }
            },
            None => {},
        }
        k = k + 1;
    }
    proof {
        assert(cv.drop_first().take(k - 1) =~= cv.drop_first());
    }
    docs
}

} // verus!
