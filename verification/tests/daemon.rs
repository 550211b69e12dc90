use daemonize::DaemonizeError;
use processkeeper::daemon::{
    process_daomon_command, DaemonAction, DaemonConfig, DaemonEvent, DaemonInitializer,
    DaemonPhase, DAEMON_GROUP, DAEMON_UMASK, DAEMON_USER,
};
use processkeeper::session::{Artifact, DaemonSession};
use processkeeper::supervise::ChildOutcome;
use subprocess::{ExitStatus, PopenError};

fn entry(pid: u32) -> DaemonInitializer {
    process_daomon_command(String::from("sleep 5"), DaemonSession::new(pid))
}

fn exited(code: u32) -> DaemonEvent {
    DaemonEvent::Outcome(ChildOutcome::Exited(ExitStatus::Exited(code)))
}

fn launch_failed() -> DaemonEvent {
    DaemonEvent::Outcome(ChildOutcome::LaunchFailed(PopenError::LogicError("no shell")))
}

fn every_event() -> Vec<DaemonEvent> {
    vec![
        DaemonEvent::DirectoryCreated,
        DaemonEvent::DirectoryFailed,
        DaemonEvent::StreamsOpened,
        DaemonEvent::StreamsFailed,
        DaemonEvent::Detached,
        DaemonEvent::DetachFailed(DaemonizeError::Fork),
        exited(0),
        launch_failed(),
    ]
}

fn expected_config(pid: u32) -> DaemonConfig {
    DaemonConfig {
        pid_file: format!("/tmp/processkeeper/{}/pidfile", pid),
        chown_pid_file: true,
        working_directory: format!("/tmp/processkeeper/{}", pid),
        user: String::from("nobody"),
        group: 2,
        umask: 0o777,
        stdout: format!("/tmp/processkeeper/{}/stdout.log", pid),
        stderr: format!("/tmp/processkeeper/{}/stderr.log", pid),
    }
}

#[test]
fn entry_begins_with_the_directory() {
    let initializer = entry(501);
    assert_eq!(initializer.phase(), DaemonPhase::CreatingDirectory);
    assert_eq!(initializer.command(), "sleep 5");
    assert_eq!(initializer.session().session_id(), 501);
    assert_eq!(
        initializer.action(),
        DaemonAction::CreateDirectory(String::from("/tmp/processkeeper/501"))
    );
}

#[test]
fn steps_follow_each_other() {
    let mut initializer = entry(501);
    initializer.record(&DaemonEvent::DirectoryCreated);
    assert_eq!(initializer.phase(), DaemonPhase::OpeningStreams);
    assert_eq!(
        initializer.action(),
        DaemonAction::OpenStreams {
            stdout: String::from("/tmp/processkeeper/501/stdout.log"),
            stderr: String::from("/tmp/processkeeper/501/stderr.log"),
        }
    );
    initializer.record(&DaemonEvent::StreamsOpened);
    assert_eq!(initializer.phase(), DaemonPhase::Detaching);
    assert_eq!(initializer.action(), DaemonAction::Detach(expected_config(501)));
    initializer.record(&DaemonEvent::Detached);
    assert_eq!(initializer.phase(), DaemonPhase::Supervising);
    assert_eq!(initializer.action(), DaemonAction::Launch(String::from("sleep 5")));
}

#[test]
fn configuration_drops_privileges_and_names_the_session() {
    let config = DaemonConfig::for_session(&DaemonSession::new(9001));
    assert_eq!(config, expected_config(9001));
    assert_eq!(config.user, "nobody");
    assert_eq!(DAEMON_USER, "nobody");
    assert_eq!(config.group, DAEMON_GROUP);
    assert_eq!(config.umask, DAEMON_UMASK);
    assert_eq!((DAEMON_GROUP, DAEMON_UMASK), (2, 511));
    assert!(config.chown_pid_file);
    let session = DaemonSession::new(9001);
    assert_eq!(config.pid_file, *session.path(Artifact::PidFile));
    assert_eq!(config.working_directory, *session.path(Artifact::WorkingDirectory));
    assert_eq!(config.stdout, *session.path(Artifact::StdoutLog));
    assert_eq!(config.stderr, *session.path(Artifact::StderrLog));
}

#[test]
fn directory_failure_leaves_no_pid_file_and_no_supervision() {
    let mut initializer = entry(7);
    initializer.record(&DaemonEvent::DirectoryFailed);
    assert_eq!(initializer.phase(), DaemonPhase::Abandoned);
    assert_eq!(initializer.action(), DaemonAction::Return);
    for event in every_event() {
        initializer.record(&event);
        assert_eq!(initializer.phase(), DaemonPhase::Abandoned);
        assert_eq!(initializer.action(), DaemonAction::Return);
    }
}

#[test]
fn stream_failure_halts_the_process() {
    let mut initializer = entry(7);
    initializer.record(&DaemonEvent::DirectoryCreated);
    initializer.record(&DaemonEvent::StreamsFailed);
    assert_eq!(initializer.phase(), DaemonPhase::Failed);
    assert_eq!(initializer.action(), DaemonAction::Abort);
    for event in every_event() {
        initializer.record(&event);
        assert_eq!(initializer.phase(), DaemonPhase::Failed);
        assert_eq!(initializer.action(), DaemonAction::Abort);
    }
}

#[test]
fn supervision_starts_even_when_detachment_fails() {
    let mut initializer = entry(7);
    initializer.record(&DaemonEvent::DirectoryCreated);
    initializer.record(&DaemonEvent::StreamsOpened);
    initializer.record(&DaemonEvent::DetachFailed(DaemonizeError::OpenPidfile));
    assert_eq!(initializer.phase(), DaemonPhase::Supervising);
    assert_eq!(initializer.action(), DaemonAction::Launch(String::from("sleep 5")));
}

#[test]
fn result_of_detachment_becomes_an_event() {
    assert!(matches!(DaemonEvent::from_detach(Ok(())), DaemonEvent::Detached));
    assert!(matches!(
        DaemonEvent::from_detach(Err(DaemonizeError::SetUser(1))),
        DaemonEvent::DetachFailed(DaemonizeError::SetUser(1))
    ));
}

#[test]
fn daemon_relaunches_after_every_exit_and_stops_on_failure() {
    let mut initializer = entry(7);
    initializer.record(&DaemonEvent::DirectoryCreated);
    initializer.record(&DaemonEvent::StreamsOpened);
    initializer.record(&DaemonEvent::Detached);
    let mut launches = 0;
    for code in [0u32, 1, 2, 0, 255] {
        assert_eq!(initializer.action(), DaemonAction::Launch(String::from("sleep 5")));
        launches += 1;
        initializer.record(&exited(code));
        assert_eq!(initializer.phase(), DaemonPhase::Supervising);
    }
    assert_eq!(launches, 5);
    initializer.record(&launch_failed());
    assert_eq!(initializer.phase(), DaemonPhase::Stopped);
    assert_eq!(initializer.action(), DaemonAction::Return);
    initializer.record(&exited(0));
    assert_eq!(initializer.phase(), DaemonPhase::Stopped);
    assert_eq!(initializer.action(), DaemonAction::Return);
}

#[test]
fn event_that_does_not_answer_the_action_changes_nothing() {
    let mut initializer = entry(7);
    for event in every_event() {
        if !matches!(event, DaemonEvent::DirectoryCreated | DaemonEvent::DirectoryFailed) {
            initializer.record(&event);
            assert_eq!(initializer.phase(), DaemonPhase::CreatingDirectory);
        }
    }
    initializer.record(&DaemonEvent::DirectoryCreated);
    for event in every_event() {
        if !matches!(event, DaemonEvent::StreamsOpened | DaemonEvent::StreamsFailed) {
            initializer.record(&event);
            assert_eq!(initializer.phase(), DaemonPhase::OpeningStreams);
        }
    }
    initializer.record(&DaemonEvent::StreamsOpened);
    for event in every_event() {
        if !matches!(event, DaemonEvent::Detached | DaemonEvent::DetachFailed(_)) {
            initializer.record(&event);
            assert_eq!(initializer.phase(), DaemonPhase::Detaching);
        }
    }
    initializer.record(&DaemonEvent::Detached);
    for event in every_event() {
        if !matches!(event, DaemonEvent::Outcome(_)) {
            initializer.record(&event);
            assert_eq!(initializer.phase(), DaemonPhase::Supervising);
        }
    }
    assert_eq!(initializer.command(), "sleep 5");
    assert_eq!(initializer.session().session_id(), 7);
}
