//! The session of one running instance: its mode and, for a daemon, the
//! files it leaves under a directory named after its process id.

use vstd::prelude::*;
use vstd::string::*;
use crate::decimal::{
    decimal, decimal_string, digit_char, is_digit, lemma_decimal_digits, lemma_decimal_injective,
};

verus! {

/// One of the places in the file system that a daemon session owns.
#[derive(Clone, Copy, Debug, PartialEq, Eq, Structural)]
pub enum Artifact {
    /// The directory of the session, which holds the three files.
    WorkingDirectory,
    /// The file that receives standard output.
    StdoutLog,
    /// The file that receives standard error.
    StderrLog,
    /// The file that records the daemon's process id.
    PidFile,
}

/// The directory under which every daemon session keeps its own.
pub const ROOT_DIRECTORY: &'static str = "/tmp/processkeeper";

/// What follows the session's directory in the path of `artifact`.
pub open spec fn artifact_suffix(artifact: Artifact) -> Seq<char> {
    match artifact {
        Artifact::WorkingDirectory => Seq::empty(),
        Artifact::StdoutLog => "/stdout.log"@,
        Artifact::StderrLog => "/stderr.log"@,
        Artifact::PidFile => "/pidfile"@,
    }
}

/// The path of `artifact` in the session numbered `session_id`: the root
/// directory, a slash, the number in decimal, then the artifact's own name.
pub open spec fn artifact_path(session_id: u32, artifact: Artifact) -> Seq<char> {
    ROOT_DIRECTORY@ + "/"@ + decimal(session_id as nat) + artifact_suffix(artifact)
}

/// The artifacts of a daemon session, named once when the session starts.
#[derive(Debug)]
pub struct DaemonSession {
    session_id: u32,
    working_directory: String,
    stdout_log: String,
    stderr_log: String,
    pid_file: String,
}

impl DaemonSession {
    #[verifier::type_invariant]
    spec fn well_formed(self) -> bool {
        &&& self.working_directory@ == artifact_path(self.session_id, Artifact::WorkingDirectory)
        &&& self.stdout_log@ == artifact_path(self.session_id, Artifact::StdoutLog)
        &&& self.stderr_log@ == artifact_path(self.session_id, Artifact::StderrLog)
        &&& self.pid_file@ == artifact_path(self.session_id, Artifact::PidFile)
    }

    /// The process id that names the session.
    pub closed spec fn id(&self) -> u32 {
        self.session_id
    }

    /// The session of the process numbered `pid`.
    pub fn new(pid: u32) -> (session: DaemonSession)
        ensures
            session.id() == pid,
    {
        let mut working_directory = String::from_str(ROOT_DIRECTORY);
        working_directory.append("/");
        let number = decimal_string(pid);
        working_directory.append(number.as_str());
        let mut stdout_log = working_directory.clone();
        stdout_log.append("/stdout.log");
        let mut stderr_log = working_directory.clone();
        stderr_log.append("/stderr.log");
        let mut pid_file = working_directory.clone();
        pid_file.append("/pidfile");
        assert(working_directory@ =~= artifact_path(pid, Artifact::WorkingDirectory));
        DaemonSession { session_id: pid, working_directory, stdout_log, stderr_log, pid_file }
    }

    /// The process id that names the session.
    pub fn session_id(&self) -> (id: u32)
        ensures
            id == self.id(),
    {
        self.session_id
    }

    /// The path of one of the session's artifacts.
    pub fn path(&self, artifact: Artifact) -> (path: &String)
        ensures
            path@ == artifact_path(self.id(), artifact),
    {
        proof {
            use_type_invariant(self);
        }
        match artifact {
            Artifact::WorkingDirectory => &self.working_directory,
            Artifact::StdoutLog => &self.stdout_log,
            Artifact::StderrLog => &self.stderr_log,
            Artifact::PidFile => &self.pid_file,
        }
    }
}

/// The two ways in which an instance runs.
#[derive(Clone, Copy, Debug, PartialEq, Eq, Structural)]
pub enum Mode {
    /// Attended: the supervision loop runs beside a signal monitor.
    Foreground,
    /// Detached: the process enters daemon mode, then supervises.
    Daemon,
}

/// The context of one running instance, made once when it starts.
#[derive(Debug)]
pub enum SupervisionSession {
    /// Foreground mode, which leaves nothing in the file system.
    Foreground,
    /// Daemon mode, with the artifacts named after the process id.
    Daemon(DaemonSession),
}

impl SupervisionSession {
    /// The mode of the session.
    pub open spec fn spec_mode(&self) -> Mode {
        match self {
            SupervisionSession::Foreground => Mode::Foreground,
            SupervisionSession::Daemon(_) => Mode::Daemon,
        }
    }

    /// The session of the process numbered `pid`: a daemon session named
    /// after `pid` where daemon mode was asked for, a foreground session
    /// otherwise.
    pub fn new(daemon: bool, pid: u32) -> (session: SupervisionSession)
        ensures
            match session {
                SupervisionSession::Foreground => !daemon,
                SupervisionSession::Daemon(inner) => daemon && inner.id() == pid,
            },
    {
        if daemon {
            SupervisionSession::Daemon(DaemonSession::new(pid))
        } else {
            SupervisionSession::Foreground
        }
    }

    /// The mode of the session.
    #[verifier::when_used_as_spec(spec_mode)]
    pub fn mode(&self) -> (mode: Mode)
        ensures
            mode == self.spec_mode(),
    {
        match self {
            SupervisionSession::Foreground => Mode::Foreground,
            SupervisionSession::Daemon(_) => Mode::Daemon,
        }
    }
}

/// Whether `s` cannot continue a number: it is empty or begins with a
/// character that is no digit.
spec fn ends_number(s: Seq<char>) -> bool {
    s.len() == 0 || !is_digit(s[0])
}

/// Every artifact's suffix is empty or begins with a slash, and the four
/// suffixes differ from each other.
proof fn lemma_suffixes(a: Artifact, b: Artifact)
    ensures
        ends_number(artifact_suffix(a)),
        artifact_suffix(a) == artifact_suffix(b) ==> a == b,
{
    reveal_strlit("/stdout.log");
    reveal_strlit("/stderr.log");
    reveal_strlit("/pidfile");
    assert forall|d: nat| d < 10 implies #[trigger] digit_char(d) != '/' by {}
    assert(!is_digit('/'));
    if artifact_suffix(a) == artifact_suffix(b) {
        assert(artifact_suffix(a).len() == artifact_suffix(b).len());
        assert(artifact_suffix(a)[4] == artifact_suffix(b)[4]);
    }
}

/// A run of digits followed by something that cannot continue a number
/// splits in one way only.
proof fn lemma_number_split(x: Seq<char>, s: Seq<char>, y: Seq<char>, t: Seq<char>)
    requires
        forall|i: int| 0 <= i < x.len() ==> is_digit(#[trigger] x[i]),
        forall|i: int| 0 <= i < y.len() ==> is_digit(#[trigger] y[i]),
        ends_number(s),
        ends_number(t),
        x + s == y + t,
    ensures
        x == y,
        s == t,
{
    let whole = x + s;
    assert(whole.len() == x.len() + s.len());
    assert(whole.len() == y.len() + t.len());
    if x.len() < y.len() {
        assert(s.len() > 0);
        assert(whole[x.len() as int] == s[0]);
        assert((y + t)[x.len() as int] == y[x.len() as int]);
        assert(false);
    }
    if y.len() < x.len() {
        assert(t.len() > 0);
        assert((y + t)[y.len() as int] == t[0]);
        assert(whole[y.len() as int] == x[y.len() as int]);
        assert(false);
    }
    assert(x =~= whole.subrange(0, x.len() as int));
    assert(y =~= (y + t).subrange(0, y.len() as int));
    assert(s =~= whole.subrange(x.len() as int, whole.len() as int));
    assert(t =~= (y + t).subrange(y.len() as int, whole.len() as int));
}

/// Paths are injective: two artifacts share a path only if they are the same
/// artifact of the same session. So two sessions with different ids never
/// meet in the file system, and the artifacts of one session are distinct.
pub proof fn law_artifact_paths_injective(a: u32, first: Artifact, b: u32, second: Artifact)
    ensures
        artifact_path(a, first) == artifact_path(b, second) <==> a == b && first == second,
{
    if artifact_path(a, first) == artifact_path(b, second) {
        let root = ROOT_DIRECTORY@ + "/"@;
        let left = decimal(a as nat) + artifact_suffix(first);
        let right = decimal(b as nat) + artifact_suffix(second);
        assert(artifact_path(a, first) =~= root + left);
        assert(artifact_path(b, second) =~= root + right);
        assert(left =~= (root + left).subrange(root.len() as int, (root + left).len() as int));
        assert(right =~= (root + right).subrange(root.len() as int, (root + right).len() as int));
        lemma_decimal_digits(a as nat);
        lemma_decimal_digits(b as nat);
        lemma_suffixes(first, second);
        lemma_suffixes(second, first);
        lemma_number_split(
            decimal(a as nat),
            artifact_suffix(first),
            decimal(b as nat),
            artifact_suffix(second),
        );
        lemma_decimal_injective(a as nat, b as nat);
    }
}

} // verus!
