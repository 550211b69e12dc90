//! The supervision loop: launch the command, wait for it to exit, launch it
//! again, and stop only when a launch itself fails.

use vstd::prelude::*;
use subprocess::{ExitStatus, PopenError};

verus! {

/// `subprocess::ExitStatus`, the status with which a child process ended.
/// The library carries it through and never looks inside.
#[verifier::external_type_specification]
#[verifier::external_body]
pub struct ExExitStatus(subprocess::ExitStatus);

/// `subprocess::PopenError`, the error of a child process that could not be
/// started or awaited. The library carries it through and never looks inside.
#[verifier::external_type_specification]
#[verifier::external_body]
pub struct ExPopenError(subprocess::PopenError);

/// A shell command line. The supervision loop owns it for its whole life
/// and hands a copy of it to each launch.
pub type CommandSpec = String;

/// The result of one launch.
#[derive(Debug)]
pub enum ChildOutcome {
    /// The child ran and ended, with whatever status.
    Exited(ExitStatus),
    /// No child could be started or awaited.
    LaunchFailed(PopenError),
}

impl ChildOutcome {
    /// The outcome that the result of starting and awaiting a child stands
    /// for: a status is an exit, an error is a failed launch.
    pub fn from_wait(result: Result<ExitStatus, PopenError>) -> (outcome: ChildOutcome)
        ensures
            match result {
                Ok(status) => outcome == ChildOutcome::Exited(status),
                Err(error) => outcome == ChildOutcome::LaunchFailed(error),
            },
    {
        match result {
            Ok(status) => ChildOutcome::Exited(status),
            Err(error) => ChildOutcome::LaunchFailed(error),
        }
    }

    /// Whether the launch itself failed.
    pub fn is_launch_failure(&self) -> (failed: bool)
        ensures
            failed == (*self is LaunchFailed),
    {
        match self {
            ChildOutcome::Exited(_) => false,
            ChildOutcome::LaunchFailed(_) => true,
        }
    }
}

/// Where the supervision loop stands.
#[derive(Clone, Copy, Debug, PartialEq, Eq, Structural)]
pub enum LoopState {
    /// The command is launched again after each exit.
    Running,
    /// A launch has failed; nothing is launched any more.
    Stopped,
}

/// The state of the loop after one more outcome: a failed launch stops a
/// running loop, an exit with any status leaves it running, and a stopped
/// loop stays stopped.
pub open spec fn loop_after(state: LoopState, outcome: ChildOutcome) -> LoopState {
    match state {
        LoopState::Running => if outcome is LaunchFailed {
            LoopState::Stopped
        } else {
            LoopState::Running
        },
        LoopState::Stopped => LoopState::Stopped,
    }
}

/// The state of the loop after the outcomes of its launches, in order.
pub open spec fn loop_run(state: LoopState, outcomes: Seq<ChildOutcome>) -> LoopState
    decreases outcomes.len(),
{
    if outcomes.len() == 0 {
        state
    } else {
        loop_run(loop_after(state, outcomes[0]), outcomes.skip(1))
    }
}

/// The number of launches that the loop makes while a runner answers with
/// `outcomes`, in order: one for each outcome that still finds it running.
pub open spec fn launch_count(state: LoopState, outcomes: Seq<ChildOutcome>) -> nat
    decreases outcomes.len(),
{
    if outcomes.len() == 0 || state == LoopState::Stopped {
        0
    } else {
        1 + launch_count(loop_after(state, outcomes[0]), outcomes.skip(1))
    }
}

/// What the loop asks of its caller next.
#[derive(Debug, PartialEq, Eq)]
pub enum Directive {
    /// Launch this command line through a shell and wait for it to exit.
    Launch(CommandSpec),
    /// Launch nothing more: the loop has ended.
    Halt,
}

/// A directive as a plain value.
pub enum DirectiveView {
    Launch(Seq<char>),
    Halt,
}

impl View for Directive {
    type V = DirectiveView;

    open spec fn view(&self) -> DirectiveView {
        match self {
            Directive::Launch(command) => DirectiveView::Launch(command@),
            Directive::Halt => DirectiveView::Halt,
        }
    }
}

/// The directive of a loop in `state` that supervises `command`.
pub open spec fn directive_of(state: LoopState, command: Seq<char>) -> DirectiveView {
    match state {
        LoopState::Running => DirectiveView::Launch(command),
        LoopState::Stopped => DirectiveView::Halt,
    }
}

/// The supervision loop of one command, as a machine: it names the next
/// directive, and takes the outcome of each launch.
#[derive(Debug)]
pub struct Supervisor {
    command: CommandSpec,
    state: LoopState,
}

/// A supervisor as a plain value.
pub struct SupervisorView {
    /// The command line under supervision.
    pub command: Seq<char>,
    /// Where the loop stands.
    pub state: LoopState,
}

impl View for Supervisor {
    type V = SupervisorView;

    closed spec fn view(&self) -> SupervisorView {
        SupervisorView { command: self.command@, state: self.state }
    }
}

impl Supervisor {
    /// The command line under supervision.
    pub fn command(&self) -> (command: &CommandSpec)
        ensures
            command@ == self@.command,
    {
        &self.command
    }

    /// Where the loop stands.
    pub fn state(&self) -> (state: LoopState)
        ensures
            state == self@.state,
    {
        self.state
    }

    /// What to do next: launch a copy of the command while the loop runs,
    /// nothing once it has stopped.
    pub fn directive(&self) -> (directive: Directive)
        ensures
            directive@ == directive_of(self@.state, self@.command),
    {
        match self.state {
            LoopState::Running => Directive::Launch(self.command.clone()),
            LoopState::Stopped => Directive::Halt,
        }
    }

    /// Takes the outcome of the launch that the last directive asked for.
    pub fn record(&mut self, outcome: &ChildOutcome)
        ensures
            final(self)@.command == old(self)@.command,
            final(self)@.state == loop_after(old(self)@.state, *outcome),
    {
        if outcome.is_launch_failure() {
            self.state = LoopState::Stopped;
        }
    }

    /// Runs the loop against a runner whose answers are known beforehand:
    /// takes `outcomes` in order, one for each launch, and returns how many
    /// launches the loop made of them.
    pub fn replay(&mut self, outcomes: &Vec<ChildOutcome>) -> (launches: usize)
        ensures
            final(self)@.command == old(self)@.command,
            final(self)@.state == loop_run(old(self)@.state, outcomes@),
            launches == launch_count(old(self)@.state, outcomes@),
    {
        let ghost start = self.state;
        let mut launches: usize = 0;
        let mut i: usize = 0;
        assert(outcomes@.skip(0) =~= outcomes@);
        while i < outcomes.len()
            invariant
                i <= outcomes.len(),
                launches <= i,
                self@.command == old(self)@.command,
                loop_run(start, outcomes@) == loop_run(self@.state, outcomes@.skip(i as int)),
                launch_count(start, outcomes@) == launches + launch_count(
                    self@.state,
                    outcomes@.skip(i as int),
                ),
            decreases outcomes.len() - i,
        {
            assert(outcomes@.skip(i as int)[0] == outcomes@[i as int]);
            assert(outcomes@.skip(i as int).skip(1) =~= outcomes@.skip(i as int + 1));
            match self.state {
                LoopState::Running => {
                    launches = launches + 1;
                },
                LoopState::Stopped => {},
            }
            self.record(&outcomes[i]);
            i = i + 1;
        }
        launches
    }
}

/// Begins the supervision of `cmd`: the loop is running, and its first
/// directive is to launch the command.
pub fn process_command(cmd: CommandSpec) -> (supervisor: Supervisor)
    ensures
        supervisor@.command == cmd@,
        supervisor@.state == LoopState::Running,
{
    Supervisor { command: cmd, state: LoopState::Running }
}

/// A stopped loop stays stopped and launches nothing, whatever is reported
/// to it.
pub proof fn law_stopped_is_final(outcomes: Seq<ChildOutcome>)
    ensures
        loop_run(LoopState::Stopped, outcomes) == LoopState::Stopped,
        launch_count(LoopState::Stopped, outcomes) == 0,
    decreases outcomes.len(),
{
    if outcomes.len() > 0 {
        law_stopped_is_final(outcomes.skip(1));
    }
}

/// While every launch ends in an exit, the loop relaunches the command after
/// each of them, whatever the exit status: it has made one launch for each
/// outcome and is still running, so that its next directive is another
/// launch.
pub proof fn law_relaunch_after_every_exit(outcomes: Seq<ChildOutcome>)
    requires
        forall|i: int| 0 <= i < outcomes.len() ==> outcomes[i] is Exited,
    ensures
        loop_run(LoopState::Running, outcomes) == LoopState::Running,
        launch_count(LoopState::Running, outcomes) == outcomes.len(),
    decreases outcomes.len(),
{
    if outcomes.len() > 0 {
        let rest = outcomes.skip(1);
        assert forall|i: int| 0 <= i < rest.len() implies rest[i] is Exited by {
            assert(rest[i] == outcomes[i + 1]);
        }
        law_relaunch_after_every_exit(rest);
    }
}

/// The first launch that fails ends the loop: it was the last launch, and
/// whatever a runner would answer after it, nothing more is launched.
pub proof fn law_stop_at_first_failure(outcomes: Seq<ChildOutcome>, first: int)
    requires
        0 <= first < outcomes.len(),
        outcomes[first] is LaunchFailed,
        forall|i: int| 0 <= i < first ==> outcomes[i] is Exited,
    ensures
        loop_run(LoopState::Running, outcomes) == LoopState::Stopped,
        launch_count(LoopState::Running, outcomes) == first + 1,
    decreases first,
{
    let rest = outcomes.skip(1);
    if first == 0 {
        law_stopped_is_final(rest);
    } else {
        assert(rest[first - 1] == outcomes[first]);
        assert forall|i: int| 0 <= i < first - 1 implies rest[i] is Exited by {
            assert(rest[i] == outcomes[i + 1]);
        }
        law_stop_at_first_failure(rest, first - 1);
    }
}

} // verus!
