//! The signal monitor of foreground mode: which signals end the process,
//! and with which exit code.

use vstd::prelude::*;

verus! {

/// Number of the hangup signal.
pub const HANGUP: i32 = 1;

/// Number of the interrupt signal.
pub const INTERRUPT: i32 = 2;

/// Number of the quit signal.
pub const QUIT: i32 = 3;

/// Number of the terminate signal.
pub const TERMINATE: i32 = 15;

/// Exit code of the process when the signals cannot be registered.
pub const SETUP_FAILURE_STATUS: i32 = 1;

/// Length in seconds of the idle pause after a signal that does not terminate.
pub const IDLE_PAUSE_SECONDS: u64 = 2;

/// Trusted: `signal_hook::consts::SIGHUP`, which re-exports `libc::SIGHUP`,
/// is the number 1.
#[verifier::external_body]
fn sighup() -> (n: i32)
    ensures
        n == HANGUP,
{
    signal_hook::consts::SIGHUP
}

/// Trusted: `signal_hook::consts::SIGINT`, which re-exports `libc::SIGINT`,
/// is the number 2.
#[verifier::external_body]
fn sigint() -> (n: i32)
    ensures
        n == INTERRUPT,
{
    signal_hook::consts::SIGINT
}

/// Trusted: `signal_hook::consts::SIGQUIT`, which re-exports `libc::SIGQUIT`,
/// is the number 3.
#[verifier::external_body]
fn sigquit() -> (n: i32)
    ensures
        n == QUIT,
{
    signal_hook::consts::SIGQUIT
}

/// Trusted: `signal_hook::consts::SIGTERM`, which re-exports `libc::SIGTERM`,
/// is the number 15.
#[verifier::external_body]
fn sigterm() -> (n: i32)
    ensures
        n == TERMINATE,
{
    signal_hook::consts::SIGTERM
}

/// Whether `signal` is one of the four signals that end the process.
pub open spec fn is_terminating(signal: i32) -> bool {
    signal == HANGUP || signal == INTERRUPT || signal == QUIT || signal == TERMINATE
}

/// One received signal, with its class.
#[derive(Clone, Copy, Debug, PartialEq, Eq, Structural)]
pub enum SignalEvent {
    /// Hangup, interrupt, quit or terminate.
    Terminating(i32),
    /// Any other number.
    Other(i32),
}

/// The event that the signal numbered `signal` is.
pub open spec fn signal_event(signal: i32) -> SignalEvent {
    if is_terminating(signal) {
        SignalEvent::Terminating(signal)
    } else {
        SignalEvent::Other(signal)
    }
}

impl SignalEvent {
    /// Classifies a received signal number.
    pub fn classify(signal: i32) -> (event: SignalEvent)
        ensures
            event == signal_event(signal),
    {
        if signal == sighup() || signal == sigint() || signal == sigquit() || signal == sigterm() {
            SignalEvent::Terminating(signal)
        } else {
            SignalEvent::Other(signal)
        }
    }
}

/// The signals that the monitor registers for, in the order of registration.
pub open spec fn registered_set() -> Seq<i32> {
    seq![HANGUP, INTERRUPT, QUIT, TERMINATE]
}

/// The signals to register for: hangup, interrupt, quit and terminate.
pub fn registered_signals() -> (signals: Vec<i32>)
    ensures
        signals@ == registered_set(),
{
    let mut signals: Vec<i32> = Vec::new();
    signals.push(sighup());
    signals.push(sigint());
    signals.push(sigquit());
    signals.push(sigterm());
    assert(signals@ =~= registered_set());
    signals
}

/// What the monitor is told.
#[derive(Clone, Copy, Debug, PartialEq, Eq, Structural)]
pub enum MonitorEvent {
    /// The signals could not be registered.
    RegistrationFailed,
    /// The signal with this number was received.
    Received(i32),
}

/// What the monitor asks of its caller.
#[derive(Clone, Copy, Debug, PartialEq, Eq, Structural)]
pub enum MonitorAction {
    /// Halt the whole process at once, with this exit code.
    Exit(i32),
    /// Stay idle for this many seconds, then wait for the next signal.
    Pause(u64),
}

/// The monitor's answer to `event`: a failed registration ends the process
/// with the fixed failure status, a terminating signal ends it with the
/// signal's own number, and any other signal only makes the monitor pause.
pub open spec fn monitor_action(event: MonitorEvent) -> MonitorAction {
    match event {
        MonitorEvent::RegistrationFailed => MonitorAction::Exit(SETUP_FAILURE_STATUS),
        MonitorEvent::Received(signal) => if is_terminating(signal) {
            MonitorAction::Exit(signal)
        } else {
            MonitorAction::Pause(IDLE_PAUSE_SECONDS)
        },
    }
}

/// Decides what the signal monitor does about `event`.
pub fn process_siganls(event: MonitorEvent) -> (action: MonitorAction)
    ensures
        action == monitor_action(event),
{
    match event {
        MonitorEvent::RegistrationFailed => MonitorAction::Exit(SETUP_FAILURE_STATUS),
        MonitorEvent::Received(signal) => match SignalEvent::classify(signal) {
            SignalEvent::Terminating(number) => MonitorAction::Exit(number),
            SignalEvent::Other(_) => MonitorAction::Pause(IDLE_PAUSE_SECONDS),
        },
    }
}

/// The exit code with which the process has halted once the signals
/// `received` have arrived in this order, or `None` while the monitor is
/// still waiting.
pub open spec fn monitor_exit(received: Seq<i32>) -> Option<i32>
    decreases received.len(),
{
    if received.len() == 0 {
        None
    } else {
        match monitor_action(MonitorEvent::Received(received[0])) {
            MonitorAction::Exit(code) => Some(code),
            MonitorAction::Pause(_) => monitor_exit(received.skip(1)),
        }
    }
}

/// The monitor registers for exactly the signals that terminate.
pub proof fn law_registered_are_terminating(signal: i32)
    ensures
        registered_set().contains(signal) <==> is_terminating(signal),
{
    let set = registered_set();
    if is_terminating(signal) {
        assert(set[0] == HANGUP && set[1] == INTERRUPT && set[2] == QUIT && set[3] == TERMINATE);
    }
}

/// The monitor halts the process for two reasons only, a failed
/// registration and a terminating signal, and never with the exit code 0.
pub proof fn law_exit_codes(event: MonitorEvent)
    ensures
        match monitor_action(event) {
            MonitorAction::Exit(code) => code != 0 && match event {
                MonitorEvent::RegistrationFailed => code == SETUP_FAILURE_STATUS,
                MonitorEvent::Received(signal) => code == signal && is_terminating(signal),
            },
            MonitorAction::Pause(seconds) => seconds == IDLE_PAUSE_SECONDS && match event {
                MonitorEvent::RegistrationFailed => false,
                MonitorEvent::Received(signal) => !is_terminating(signal),
            },
        },
{
}

/// The first terminating signal that arrives halts the process, with its
/// own number as the exit code.
pub proof fn law_exit_with_signal_number(received: Seq<i32>, first: int)
    requires
        0 <= first < received.len(),
        is_terminating(received[first]),
        forall|i: int| 0 <= i < first ==> !is_terminating(received[i]),
    ensures
        monitor_exit(received) == Some(received[first]),
    decreases first,
{
    if first > 0 {
        let rest = received.skip(1);
        assert(rest[first - 1] == received[first]);
        assert forall|i: int| 0 <= i < first - 1 implies !is_terminating(rest[i]) by {
            assert(rest[i] == received[i + 1]);
        }
        law_exit_with_signal_number(rest, first - 1);
    }
}

/// Signals that do not terminate never halt the process: the monitor goes
/// on waiting.
pub proof fn law_monitoring_continues(received: Seq<i32>)
    requires
        forall|i: int| 0 <= i < received.len() ==> !is_terminating(received[i]),
    ensures
        monitor_exit(received) == None::<i32>,
    decreases received.len(),
{
    if received.len() > 0 {
        let rest = received.skip(1);
        assert forall|i: int| 0 <= i < rest.len() implies !is_terminating(rest[i]) by {
            assert(rest[i] == received[i + 1]);
        }
        law_monitoring_continues(rest);
    }
}

} // verus!
