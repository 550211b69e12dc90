use processkeeper::daemon::{DaemonAction, DaemonPhase};
use processkeeper::session::{DaemonSession, SupervisionSession};
use processkeeper::signal::{MonitorAction, MonitorEvent};
use processkeeper::supervise::{Directive, LoopState};
use processkeeper::{process_command, process_daomon_command, process_siganls};

#[test]
fn foreground_instance_supervises_and_monitors() {
    let session = SupervisionSession::new(false, 812);
    assert!(matches!(session, SupervisionSession::Foreground));
    let supervisor = process_command(String::from("echo hello"));
    assert_eq!(supervisor.state(), LoopState::Running);
    assert_eq!(supervisor.directive(), Directive::Launch(String::from("echo hello")));
    assert_eq!(process_siganls(MonitorEvent::Received(2)), MonitorAction::Exit(2));
}

#[test]
fn daemon_instance_enters_daemon_mode_first() {
    let session = match SupervisionSession::new(true, 812) {
        SupervisionSession::Daemon(session) => session,
        SupervisionSession::Foreground => DaemonSession::new(0),
    };
    assert_eq!(session.session_id(), 812);
    let initializer = process_daomon_command(String::from("echo hello"), session);
    assert_eq!(initializer.phase(), DaemonPhase::CreatingDirectory);
    assert_eq!(
        initializer.action(),
        DaemonAction::CreateDirectory(String::from("/tmp/processkeeper/812"))
    );
}
