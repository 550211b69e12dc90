//! Daemon mode: the steps that detach the process, each a precondition of
//! the next, and the supervision that follows them.

use vstd::prelude::*;
use vstd::string::*;
use daemonize::DaemonizeError;
use crate::session::{artifact_path, Artifact, DaemonSession};
use crate::supervise::{loop_after, loop_run, ChildOutcome, CommandSpec, LoopState};

verus! {

/// `daemonize::DaemonizeError`, the error of a detachment that failed. The
/// library carries it through and never looks inside.
#[verifier::external_type_specification]
#[verifier::external_body]
pub struct ExDaemonizeError(daemonize::DaemonizeError);

/// Name of the unprivileged user that the detached process runs as.
pub const DAEMON_USER: &'static str = "nobody";

/// Id of the group that the detached process runs as.
pub const DAEMON_GROUP: u32 = 2;

/// File-creation mask of the detached process: it denies every permission.
pub const DAEMON_UMASK: u32 = 0o777;

/// What the detachment is asked to do.
#[derive(Debug, PartialEq, Eq)]
pub struct DaemonConfig {
    /// Path of the file that receives the daemon's process id.
    pub pid_file: String,
    /// Whether the pid file is handed to the user and group below.
    pub chown_pid_file: bool,
    /// Directory that the daemon changes to.
    pub working_directory: String,
    /// Name of the user that the daemon runs as.
    pub user: String,
    /// Id of the group that the daemon runs as.
    pub group: u32,
    /// File-creation mask of the daemon.
    pub umask: u32,
    /// Path of the opened file that becomes standard output.
    pub stdout: String,
    /// Path of the opened file that becomes standard error.
    pub stderr: String,
}

/// A detachment's configuration as a plain value.
pub struct DaemonConfigView {
    pub pid_file: Seq<char>,
    pub chown_pid_file: bool,
    pub working_directory: Seq<char>,
    pub user: Seq<char>,
    pub group: u32,
    pub umask: u32,
    pub stdout: Seq<char>,
    pub stderr: Seq<char>,
}

impl View for DaemonConfig {
    type V = DaemonConfigView;

    open spec fn view(&self) -> DaemonConfigView {
        DaemonConfigView {
            pid_file: self.pid_file@,
            chown_pid_file: self.chown_pid_file,
            working_directory: self.working_directory@,
            user: self.user@,
            group: self.group,
            umask: self.umask,
            stdout: self.stdout@,
            stderr: self.stderr@,
        }
    }
}

/// The configuration with which the session numbered `session_id` detaches:
/// its own pid file, handed over to the daemon's user and group; its own
/// directory; the unprivileged user and group; a mask that denies
/// everything; its two log files as the standard streams.
pub open spec fn daemon_config(session_id: u32) -> DaemonConfigView {
    DaemonConfigView {
        pid_file: artifact_path(session_id, Artifact::PidFile),
        chown_pid_file: true,
        working_directory: artifact_path(session_id, Artifact::WorkingDirectory),
        user: DAEMON_USER@,
        group: DAEMON_GROUP,
        umask: DAEMON_UMASK,
        stdout: artifact_path(session_id, Artifact::StdoutLog),
        stderr: artifact_path(session_id, Artifact::StderrLog),
    }
}

impl DaemonConfig {
    /// The configuration with which `session` detaches.
    pub fn for_session(session: &DaemonSession) -> (config: DaemonConfig)
        ensures
            config@ == daemon_config(session.id()),
    {
        DaemonConfig {
            pid_file: session.path(Artifact::PidFile).clone(),
            chown_pid_file: true,
            working_directory: session.path(Artifact::WorkingDirectory).clone(),
            user: String::from_str(DAEMON_USER),
            group: DAEMON_GROUP,
            umask: DAEMON_UMASK,
            stdout: session.path(Artifact::StdoutLog).clone(),
            stderr: session.path(Artifact::StderrLog).clone(),
        }
    }
}

/// How far the entry into daemon mode has come.
#[derive(Clone, Copy, Debug, PartialEq, Eq, Structural)]
pub enum DaemonPhase {
    /// The session's directory is to be created.
    CreatingDirectory,
    /// The two log files are to be opened.
    OpeningStreams,
    /// The process is to detach.
    Detaching,
    /// The supervision loop runs.
    Supervising,
    /// The supervision loop has ended on a failed launch.
    Stopped,
    /// The directory could not be created; nothing else was done.
    Abandoned,
    /// A log file could not be opened; the process halts.
    Failed,
}

/// What the caller reports back after it has performed an action.
#[derive(Debug)]
pub enum DaemonEvent {
    /// The session's directory exists.
    DirectoryCreated,
    /// The session's directory could not be created.
    DirectoryFailed,
    /// Both log files are open.
    StreamsOpened,
    /// One of the log files could not be opened.
    StreamsFailed,
    /// The process is detached.
    Detached,
    /// The detachment failed with this error.
    DetachFailed(DaemonizeError),
    /// The launched child ended in this way.
    Outcome(ChildOutcome),
}

impl DaemonEvent {
    /// The event that the result of a detachment stands for.
    pub fn from_detach(result: Result<(), DaemonizeError>) -> (event: DaemonEvent)
        ensures
            match result {
                Ok(_) => event == DaemonEvent::Detached,
                Err(error) => event == DaemonEvent::DetachFailed(error),
            },
    {
        match result {
            Ok(_) => DaemonEvent::Detached,
            Err(error) => DaemonEvent::DetachFailed(error),
        }
    }
}

/// The phase in which the supervision loop is when it is in `state`.
pub open spec fn supervising_phase(state: LoopState) -> DaemonPhase {
    match state {
        LoopState::Running => DaemonPhase::Supervising,
        LoopState::Stopped => DaemonPhase::Stopped,
    }
}

/// The phase after `event` was reported in `phase`.
///
/// Each step waits for the report of its own action. A directory that could
/// not be created abandons the entry, a log file that could not be opened
/// fails it, and a detachment leads to supervision whether it succeeded or
/// not. Under supervision the outcomes of the launches decide as in the
/// supervision loop. An event that does not answer the phase's action
/// changes nothing, and neither does anything after the end.
pub open spec fn phase_after(phase: DaemonPhase, event: DaemonEvent) -> DaemonPhase {
    match phase {
        DaemonPhase::CreatingDirectory => match event {
            DaemonEvent::DirectoryCreated => DaemonPhase::OpeningStreams,
            DaemonEvent::DirectoryFailed => DaemonPhase::Abandoned,
            _ => phase,
        },
        DaemonPhase::OpeningStreams => match event {
            DaemonEvent::StreamsOpened => DaemonPhase::Detaching,
            DaemonEvent::StreamsFailed => DaemonPhase::Failed,
            _ => phase,
        },
        DaemonPhase::Detaching => match event {
            DaemonEvent::Detached => DaemonPhase::Supervising,
            DaemonEvent::DetachFailed(_) => DaemonPhase::Supervising,
            _ => phase,
        },
        DaemonPhase::Supervising => match event {
            DaemonEvent::Outcome(outcome) => supervising_phase(
                loop_after(LoopState::Running, outcome),
            ),
            _ => phase,
        },
        _ => phase,
    }
}

/// What the caller is asked to do next.
#[derive(Debug, PartialEq, Eq)]
pub enum DaemonAction {
    /// Create this directory, with its parents.
    CreateDirectory(String),
    /// Create these two files and keep them open.
    OpenStreams { stdout: String, stderr: String },
    /// Detach the process as this configuration says.
    Detach(DaemonConfig),
    /// Launch this command line through a shell and wait for it to exit.
    Launch(CommandSpec),
    /// Return without a word: there is nothing more to do.
    Return,
    /// Halt the process: the failure is not recovered from.
    Abort,
}

/// An action as a plain value.
pub enum DaemonActionView {
    CreateDirectory(Seq<char>),
    OpenStreams { stdout: Seq<char>, stderr: Seq<char> },
    Detach(DaemonConfigView),
    Launch(Seq<char>),
    Return,
    Abort,
}

impl View for DaemonAction {
    type V = DaemonActionView;

    open spec fn view(&self) -> DaemonActionView {
        match self {
            DaemonAction::CreateDirectory(path) => DaemonActionView::CreateDirectory(path@),
            DaemonAction::OpenStreams { stdout, stderr } => DaemonActionView::OpenStreams {
                stdout: stdout@,
                stderr: stderr@,
            },
            DaemonAction::Detach(config) => DaemonActionView::Detach(config@),
            DaemonAction::Launch(command) => DaemonActionView::Launch(command@),
            DaemonAction::Return => DaemonActionView::Return,
            DaemonAction::Abort => DaemonActionView::Abort,
        }
    }
}

/// The action of `phase`, for the session numbered `session_id` and the
/// command line `command`.
pub open spec fn action_of(phase: DaemonPhase, session_id: u32, command: Seq<char>)
    -> DaemonActionView {
    match phase {
        DaemonPhase::CreatingDirectory => DaemonActionView::CreateDirectory(
            artifact_path(session_id, Artifact::WorkingDirectory),
        ),
        DaemonPhase::OpeningStreams => DaemonActionView::OpenStreams {
            stdout: artifact_path(session_id, Artifact::StdoutLog),
            stderr: artifact_path(session_id, Artifact::StderrLog),
        },
        DaemonPhase::Detaching => DaemonActionView::Detach(daemon_config(session_id)),
        DaemonPhase::Supervising => DaemonActionView::Launch(command),
        DaemonPhase::Stopped => DaemonActionView::Return,
        DaemonPhase::Abandoned => DaemonActionView::Return,
        DaemonPhase::Failed => DaemonActionView::Abort,
    }
}

/// The entry into daemon mode and the supervision after it, as a machine:
/// it names the next action, and takes the report of each.
#[derive(Debug)]
pub struct DaemonInitializer {
    session: DaemonSession,
    command: CommandSpec,
    phase: DaemonPhase,
}

/// An initializer as a plain value.
pub struct DaemonInitializerView {
    /// The process id that names the session.
    pub session_id: u32,
    /// The command line under supervision.
    pub command: Seq<char>,
    /// How far the entry has come.
    pub phase: DaemonPhase,
}

impl View for DaemonInitializer {
    type V = DaemonInitializerView;

    closed spec fn view(&self) -> DaemonInitializerView {
        DaemonInitializerView {
            session_id: self.session.id(),
            command: self.command@,
            phase: self.phase,
        }
    }
}

impl DaemonInitializer {
    /// The session that is entered.
    pub fn session(&self) -> (session: &DaemonSession)
        ensures
            session.id() == self@.session_id,
    {
        &self.session
    }

    /// The command line under supervision.
    pub fn command(&self) -> (command: &CommandSpec)
        ensures
            command@ == self@.command,
    {
        &self.command
    }

    /// How far the entry has come.
    pub fn phase(&self) -> (phase: DaemonPhase)
        ensures
            phase == self@.phase,
    {
        self.phase
    }

    /// What to do next.
    pub fn action(&self) -> (action: DaemonAction)
        ensures
            action@ == action_of(self@.phase, self@.session_id, self@.command),
    {
        match self.phase {
            DaemonPhase::CreatingDirectory => DaemonAction::CreateDirectory(
                self.session.path(Artifact::WorkingDirectory).clone(),
            ),
            DaemonPhase::OpeningStreams => DaemonAction::OpenStreams {
                stdout: self.session.path(Artifact::StdoutLog).clone(),
                stderr: self.session.path(Artifact::StderrLog).clone(),
            },
            DaemonPhase::Detaching => DaemonAction::Detach(DaemonConfig::for_session(&self.session)),
            DaemonPhase::Supervising => DaemonAction::Launch(self.command.clone()),
            DaemonPhase::Stopped => DaemonAction::Return,
            DaemonPhase::Abandoned => DaemonAction::Return,
            DaemonPhase::Failed => DaemonAction::Abort,
        }
    }

    /// Takes the report of the action that was asked for last.
    pub fn record(&mut self, event: &DaemonEvent)
        ensures
            final(self)@.session_id == old(self)@.session_id,
            final(self)@.command == old(self)@.command,
            final(self)@.phase == phase_after(old(self)@.phase, *event),
    {
        let next = match self.phase {
            DaemonPhase::CreatingDirectory => match event {
                DaemonEvent::DirectoryCreated => DaemonPhase::OpeningStreams,
                DaemonEvent::DirectoryFailed => DaemonPhase::Abandoned,
                _ => DaemonPhase::CreatingDirectory,
            },
            DaemonPhase::OpeningStreams => match event {
                DaemonEvent::StreamsOpened => DaemonPhase::Detaching,
                DaemonEvent::StreamsFailed => DaemonPhase::Failed,
                _ => DaemonPhase::OpeningStreams,
            },
            DaemonPhase::Detaching => match event {
                DaemonEvent::Detached => DaemonPhase::Supervising,
                DaemonEvent::DetachFailed(_) => DaemonPhase::Supervising,
                _ => DaemonPhase::Detaching,
            },
            DaemonPhase::Supervising => match event {
                DaemonEvent::Outcome(outcome) => if outcome.is_launch_failure() {
                    DaemonPhase::Stopped
                } else {
                    DaemonPhase::Supervising
                },
                _ => DaemonPhase::Supervising,
            },
            DaemonPhase::Stopped => DaemonPhase::Stopped,
            DaemonPhase::Abandoned => DaemonPhase::Abandoned,
            DaemonPhase::Failed => DaemonPhase::Failed,
        };
        self.phase = next;
    }
}

/// Begins the entry into daemon mode for `cmd` in `session`: the first
/// action is to create the session's directory.
pub fn process_daomon_command(cmd: CommandSpec, session: DaemonSession) -> (initializer: DaemonInitializer)
    ensures
        initializer@.session_id == session.id(),
        initializer@.command == cmd@,
        initializer@.phase == DaemonPhase::CreatingDirectory,
{
    DaemonInitializer { session, command: cmd, phase: DaemonPhase::CreatingDirectory }
}

/// The phase after the events `events` were reported in order, from `phase`
/// on.
pub open spec fn phase_run(phase: DaemonPhase, events: Seq<DaemonEvent>) -> DaemonPhase
    decreases events.len(),
{
    if events.len() == 0 {
        phase
    } else {
        phase_run(phase_after(phase, events[0]), events.skip(1))
    }
}

/// The stages in the life of a daemon instance.
#[derive(Clone, Copy, Debug, PartialEq, Eq, Structural)]
pub enum Stage {
    /// The process prepares its session and detaches.
    EnteringDaemon,
    /// The supervision loop runs.
    Supervising,
    /// Nothing more is done.
    Terminated,
}

/// The stage that `phase` belongs to.
pub open spec fn stage_of(phase: DaemonPhase) -> Stage {
    match phase {
        DaemonPhase::CreatingDirectory => Stage::EnteringDaemon,
        DaemonPhase::OpeningStreams => Stage::EnteringDaemon,
        DaemonPhase::Detaching => Stage::EnteringDaemon,
        DaemonPhase::Supervising => Stage::Supervising,
        DaemonPhase::Stopped => Stage::Terminated,
        DaemonPhase::Abandoned => Stage::Terminated,
        DaemonPhase::Failed => Stage::Terminated,
    }
}

/// The place of `stage` in the order of the stages.
pub open spec fn stage_rank(stage: Stage) -> nat {
    match stage {
        Stage::EnteringDaemon => 0,
        Stage::Supervising => 1,
        Stage::Terminated => 2,
    }
}

/// No event leads back to an earlier stage.
pub proof fn law_stages_only_advance(phase: DaemonPhase, event: DaemonEvent)
    ensures
        stage_rank(stage_of(phase)) <= stage_rank(stage_of(phase_after(phase, event))),
{
}

/// Each step is a precondition of the next: a phase is entered only from
/// the phase before it, and only on the report that belongs to that phase.
/// Nothing leads back to the first step.
pub proof fn law_steps_follow_in_order(phase: DaemonPhase, event: DaemonEvent)
    requires
        phase_after(phase, event) != phase,
    ensures
        match phase_after(phase, event) {
            DaemonPhase::CreatingDirectory => false,
            DaemonPhase::OpeningStreams => phase == DaemonPhase::CreatingDirectory
                && event is DirectoryCreated,
            DaemonPhase::Detaching => phase == DaemonPhase::OpeningStreams
                && event is StreamsOpened,
            DaemonPhase::Supervising => phase == DaemonPhase::Detaching
                && (event is Detached || event is DetachFailed),
            DaemonPhase::Stopped => phase == DaemonPhase::Supervising
                && (event matches DaemonEvent::Outcome(outcome) && outcome is LaunchFailed),
            DaemonPhase::Abandoned => phase == DaemonPhase::CreatingDirectory
                && event is DirectoryFailed,
            DaemonPhase::Failed => phase == DaemonPhase::OpeningStreams
                && event is StreamsFailed,
        },
{
}

/// Once terminated, the instance stays as it is, whatever is reported.
pub proof fn law_terminated_is_final(phase: DaemonPhase, events: Seq<DaemonEvent>)
    requires
        stage_of(phase) == Stage::Terminated,
    ensures
        phase_run(phase, events) == phase,
    decreases events.len(),
{
    if events.len() > 0 {
        law_terminated_is_final(phase, events.skip(1));
    }
}

/// Where the session's directory cannot be created, the entry is abandoned
/// for good: whatever is reported afterwards, the only thing asked for is to
/// return. The process is never asked to detach, so no pid file is written,
/// and never asked to launch, so nothing is supervised.
pub proof fn law_directory_failure_abandons(
    events: Seq<DaemonEvent>,
    session_id: u32,
    command: Seq<char>,
)
    requires
        events.len() > 0,
        events[0] is DirectoryFailed,
    ensures
        phase_run(DaemonPhase::CreatingDirectory, events) == DaemonPhase::Abandoned,
        action_of(phase_run(DaemonPhase::CreatingDirectory, events), session_id, command)
            == DaemonActionView::Return,
{
    law_terminated_is_final(DaemonPhase::Abandoned, events.skip(1));
}

/// Under supervision a daemon decides as the supervision loop does: after
/// the outcomes of its launches it supervises where the loop would run, and
/// has stopped where the loop would have stopped.
pub proof fn law_daemon_supervises_as_loop(outcomes: Seq<ChildOutcome>)
    ensures
        phase_run(
            DaemonPhase::Supervising,
            outcomes.map_values(|outcome: ChildOutcome| DaemonEvent::Outcome(outcome)),
        ) == supervising_phase(loop_run(LoopState::Running, outcomes)),
    decreases outcomes.len(),
{
    let wrap = |outcome: ChildOutcome| DaemonEvent::Outcome(outcome);
    let events = outcomes.map_values(wrap);
    if outcomes.len() > 0 {
        let rest = outcomes.skip(1);
        assert(events[0] == DaemonEvent::Outcome(outcomes[0]));
        assert(events.skip(1) =~= rest.map_values(wrap));
        if outcomes[0] is LaunchFailed {
            law_terminated_is_final(DaemonPhase::Stopped, events.skip(1));
            crate::supervise::law_stopped_is_final(rest);
        } else {
            law_daemon_supervises_as_loop(rest);
        }
    }
}

} // verus!
