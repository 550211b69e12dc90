use processkeeper::signal::{
    process_siganls, registered_signals, MonitorAction, MonitorEvent, SignalEvent, HANGUP,
    IDLE_PAUSE_SECONDS, INTERRUPT, QUIT, SETUP_FAILURE_STATUS, TERMINATE,
};
use signal_hook::consts::{SIGHUP, SIGINT, SIGQUIT, SIGTERM, SIGUSR1, SIGUSR2, SIGWINCH};
use signal_hook::iterator::Signals;

#[test]
fn signal_numbers_are_those_of_the_platform() {
    assert_eq!(HANGUP, SIGHUP);
    assert_eq!(INTERRUPT, SIGINT);
    assert_eq!(QUIT, SIGQUIT);
    assert_eq!(TERMINATE, SIGTERM);
    assert_eq!((HANGUP, INTERRUPT, QUIT, TERMINATE), (1, 2, 3, 15));
}

#[test]
fn the_four_signals_are_terminating() {
    assert_eq!(SignalEvent::classify(SIGHUP), SignalEvent::Terminating(1));
    assert_eq!(SignalEvent::classify(SIGINT), SignalEvent::Terminating(2));
    assert_eq!(SignalEvent::classify(SIGQUIT), SignalEvent::Terminating(3));
    assert_eq!(SignalEvent::classify(SIGTERM), SignalEvent::Terminating(15));
}

#[test]
fn every_other_number_is_other() {
    assert_eq!(SignalEvent::classify(SIGUSR1), SignalEvent::Other(SIGUSR1));
    assert_eq!(SignalEvent::classify(SIGUSR2), SignalEvent::Other(SIGUSR2));
    assert_eq!(SignalEvent::classify(SIGWINCH), SignalEvent::Other(SIGWINCH));
    assert_eq!(SignalEvent::classify(0), SignalEvent::Other(0));
    assert_eq!(SignalEvent::classify(-1), SignalEvent::Other(-1));
    assert_eq!(SignalEvent::classify(4), SignalEvent::Other(4));
    assert_eq!(SignalEvent::classify(14), SignalEvent::Other(14));
    assert_eq!(SignalEvent::classify(16), SignalEvent::Other(16));
    assert_eq!(SignalEvent::classify(i32::MAX), SignalEvent::Other(i32::MAX));
    assert_eq!(SignalEvent::classify(i32::MIN), SignalEvent::Other(i32::MIN));
}

#[test]
fn classification_agrees_with_the_registered_set_on_a_range() {
    let registered = registered_signals();
    let mut signal = -70;
    while signal <= 70 {
        let expected = if registered.contains(&signal) {
            SignalEvent::Terminating(signal)
        } else {
            SignalEvent::Other(signal)
        };
        assert_eq!(SignalEvent::classify(signal), expected);
        signal += 1;
    }
}

#[test]
fn terminating_signal_exits_with_its_number() {
    assert_eq!(process_siganls(MonitorEvent::Received(SIGHUP)), MonitorAction::Exit(1));
    assert_eq!(process_siganls(MonitorEvent::Received(SIGINT)), MonitorAction::Exit(2));
    assert_eq!(process_siganls(MonitorEvent::Received(SIGQUIT)), MonitorAction::Exit(3));
    assert_eq!(process_siganls(MonitorEvent::Received(SIGTERM)), MonitorAction::Exit(15));
}

#[test]
fn other_signal_pauses_and_monitoring_continues() {
    assert_eq!(process_siganls(MonitorEvent::Received(SIGUSR1)), MonitorAction::Pause(2));
    assert_eq!(
        process_siganls(MonitorEvent::Received(SIGWINCH)),
        MonitorAction::Pause(IDLE_PAUSE_SECONDS)
    );
    assert_eq!(process_siganls(MonitorEvent::Received(0)), MonitorAction::Pause(2));
}

#[test]
fn exit_comes_with_the_first_terminating_signal() {
    let received = vec![SIGUSR1, SIGWINCH, SIGUSR2, SIGQUIT, SIGTERM];
    let mut pauses = 0;
    let mut exit = None;
    for signal in received {
        match process_siganls(MonitorEvent::Received(signal)) {
            MonitorAction::Exit(code) => {
                exit = Some(code);
                break;
            }
            MonitorAction::Pause(_) => pauses += 1,
        }
    }
    assert_eq!(pauses, 3);
    assert_eq!(exit, Some(3));
}

#[test]
fn failed_registration_exits_with_one() {
    assert_eq!(SETUP_FAILURE_STATUS, 1);
    assert_eq!(process_siganls(MonitorEvent::RegistrationFailed), MonitorAction::Exit(1));
}

#[test]
fn registered_set_is_hangup_interrupt_quit_terminate() {
    assert_eq!(registered_signals(), vec![1, 2, 3, 15]);
    assert_eq!(registered_signals(), vec![SIGHUP, SIGINT, SIGQUIT, SIGTERM]);
}

#[test]
fn registered_set_can_be_registered() {
    let signals = Signals::new(registered_signals());
    assert!(signals.is_ok());
}
