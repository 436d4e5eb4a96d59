use firebender::session::{
    inbound_step, login_argv, relay_step, session_step, ClientMessage, InboundStep, RelayStep,
    SessionAction, SessionState,
};
use firebender::session::SessionEvent;

#[test]
fn unknown_instance_notifies_and_closes() {
    let (s, a) = session_step(SessionState::Connecting, SessionEvent::LookupFailed);
    assert_eq!(s, SessionState::Closed);
    assert_eq!(a, SessionAction::NotifyErrorAndClose);
}

#[test]
fn spawn_failure_notifies_and_closes() {
    let (s, a) = session_step(SessionState::Connecting, SessionEvent::SpawnFailed);
    assert_eq!(s, SessionState::Closed);
    assert_eq!(a, SessionAction::NotifyErrorAndClose);
}

#[test]
fn immediate_subprocess_exit_closes_the_session() {
    // A remote-login subprocess that exits immediately ends the first
    // relay task at once; the session must reach Closed (connection
    // closed server-side) instead of hanging.
    let (s, a) = session_step(SessionState::Connecting, SessionEvent::SpawnSucceeded);
    assert_eq!(s, SessionState::Active);
    assert_eq!(a, SessionAction::StartRelays);

    let (s, a) = session_step(s, SessionEvent::TaskFinished);
    assert_eq!(s, SessionState::Closing);
    assert_eq!(a, SessionAction::KillSubprocess);

    let (s, a) = session_step(s, SessionEvent::TeardownDone);
    assert_eq!(s, SessionState::Closed);
    assert_eq!(a, SessionAction::Nothing);

    // Closed absorbs everything; no further I/O is ever requested.
    let (s, a) = session_step(s, SessionEvent::TaskFinished);
    assert_eq!(s, SessionState::Closed);
    assert_eq!(a, SessionAction::Nothing);
}

#[test]
fn impossible_events_change_nothing() {
    let (s, a) = session_step(SessionState::Active, SessionEvent::SpawnSucceeded);
    assert_eq!(s, SessionState::Active);
    assert_eq!(a, SessionAction::Nothing);
    let (s, a) = session_step(SessionState::Connecting, SessionEvent::TeardownDone);
    assert_eq!(s, SessionState::Connecting);
    assert_eq!(a, SessionAction::Nothing);
}

#[test]
fn login_command_targets_the_instance() {
    let argv = login_argv(&String::from("172.16.0.5"));
    let argv: Vec<&str> = argv.iter().map(|a| a.as_str()).collect();
    assert_eq!(
        argv,
        vec![
            "sshpass",
            "-p",
            "root",
            "ssh",
            "-tt",
            "-o",
            "StrictHostKeyChecking=no",
            "-o",
            "UserKnownHostsFile=/dev/null",
            "-o",
            "LogLevel=QUIET",
            "-o",
            "ServerAliveInterval=30",
            "-o",
            "ServerAliveCountMax=3",
            "-o",
            "ConnectTimeout=10",
            "root@172.16.0.5",
        ]
    );
}

#[test]
fn output_relay_forwards_until_eof_or_error() {
    assert_eq!(relay_step(Some(17)), RelayStep::Forward(17));
    assert_eq!(relay_step(Some(0)), RelayStep::Stop);
    assert_eq!(relay_step(None), RelayStep::Stop);
}

#[test]
fn inbound_relay_writes_text_and_stops_on_close() {
    assert_eq!(inbound_step(&ClientMessage::Text), InboundStep::WriteAndFlush);
    assert_eq!(inbound_step(&ClientMessage::ConnectionClosed), InboundStep::Stop);
    assert_eq!(inbound_step(&ClientMessage::ReceiveError), InboundStep::Stop);
    assert_eq!(inbound_step(&ClientMessage::Other), InboundStep::Ignore);
}
