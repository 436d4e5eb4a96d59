use vstd::prelude::*;
use vstd::view::DeepView;

use crate::network::push_arg;

verus! {

/// The lifecycle of one terminal session.
#[derive(Clone, Copy, Debug, PartialEq, Eq, Structural)]
pub enum SessionState {
    /// Looking up the instance and launching the remote-login subprocess.
    Connecting,
    /// The three relay tasks are running.
    Active,
    /// The first task terminated; the session is being torn down.
    Closing,
    /// Terminal: no further I/O occurs.
    Closed,
}

/// What the proxy observes while driving a session.
#[derive(Clone, Copy, Debug, PartialEq, Eq, Structural)]
pub enum SessionEvent {
    /// The requested identifier is not in the registry.
    LookupFailed,
    /// The remote-login subprocess could not be launched.
    SpawnFailed,
    /// The remote-login subprocess is running.
    SpawnSucceeded,
    /// The first of the three relay tasks terminated, for any reason:
    /// stream end, client disconnect, or an I/O error.
    TaskFinished,
    /// The subprocess was terminated and the remaining tasks abandoned.
    TeardownDone,
}

/// What the unverified shell must do on a transition.
#[derive(Clone, Copy, Debug, PartialEq, Eq, Structural)]
pub enum SessionAction {
    /// Send a single error notice to the client, then close the
    /// connection.
    NotifyErrorAndClose,
    /// Start the three relay tasks.
    StartRelays,
    /// Abandon the other tasks and forcibly terminate the subprocess.
    KillSubprocess,
    /// Do nothing.
    Nothing,
}

/// The session transition function. Events that cannot occur in a state
/// change nothing; `Closed` absorbs everything.
pub open spec fn session_next(s: SessionState, e: SessionEvent) -> (SessionState, SessionAction) {
    match (s, e) {
        (SessionState::Connecting, SessionEvent::LookupFailed) => (
            SessionState::Closed,
            SessionAction::NotifyErrorAndClose,
        ),
        (SessionState::Connecting, SessionEvent::SpawnFailed) => (
            SessionState::Closed,
            SessionAction::NotifyErrorAndClose,
        ),
        (SessionState::Connecting, SessionEvent::SpawnSucceeded) => (
            SessionState::Active,
            SessionAction::StartRelays,
        ),
        (SessionState::Active, SessionEvent::TaskFinished) => (
            SessionState::Closing,
            SessionAction::KillSubprocess,
        ),
        (SessionState::Closing, SessionEvent::TeardownDone) => (
            SessionState::Closed,
            SessionAction::Nothing,
        ),
        (_, _) => (s, SessionAction::Nothing),
    }
}

/// Advances a session by one observed event.
pub fn session_step(s: SessionState, e: SessionEvent) -> (r: (SessionState, SessionAction))
    ensures
        r == session_next(s, e),
{
    match (s, e) {
        (SessionState::Connecting, SessionEvent::LookupFailed) => (
            SessionState::Closed,
            SessionAction::NotifyErrorAndClose,
        ),
        (SessionState::Connecting, SessionEvent::SpawnFailed) => (
            SessionState::Closed,
            SessionAction::NotifyErrorAndClose,
        ),
        (SessionState::Connecting, SessionEvent::SpawnSucceeded) => (
            SessionState::Active,
            SessionAction::StartRelays,
        ),
        (SessionState::Active, SessionEvent::TaskFinished) => (
            SessionState::Closing,
            SessionAction::KillSubprocess,
        ),
        (SessionState::Closing, SessionEvent::TeardownDone) => (
            SessionState::Closed,
            SessionAction::Nothing,
        ),
        (other, _) => (other, SessionAction::Nothing),
    }
}

/// Law: the first relay task to finish — in particular a remote-login
/// subprocess that exits immediately — drives the session through
/// `Closing` (killing the subprocess) to `Closed`, where every further
/// event is absorbed and no action is ever requested again: the session
/// terminates instead of hanging, and the connection is closed
/// server-side.
pub proof fn lemma_first_exit_closes(e: SessionEvent)
    ensures
        session_next(SessionState::Active, SessionEvent::TaskFinished) == (
            SessionState::Closing,
            SessionAction::KillSubprocess,
        ),
        session_next(SessionState::Closing, SessionEvent::TeardownDone) == (
            SessionState::Closed,
            SessionAction::Nothing,
        ),
        session_next(SessionState::Closed, e) == (SessionState::Closed, SessionAction::Nothing),
{
}

/// The remote-login command line for an instance at address `ip`: fixed
/// non-interactive authentication, host-key checking disabled, keepalive
/// probing, and a bounded connection timeout.
pub open spec fn login_cmd(ip: Seq<char>) -> Seq<Seq<char>> {
    seq![
        "sshpass"@,
        "-p"@,
        "root"@,
        "ssh"@,
        "-tt"@,
        "-o"@,
        "StrictHostKeyChecking=no"@,
        "-o"@,
        "UserKnownHostsFile=/dev/null"@,
        "-o"@,
        "LogLevel=QUIET"@,
        "-o"@,
        "ServerAliveInterval=30"@,
        "-o"@,
        "ServerAliveCountMax=3"@,
        "-o"@,
        "ConnectTimeout=10"@,
        "root@"@ + ip,
    ]
}

/// Renders the remote-login command line.
pub fn login_argv(ip: &String) -> (r: Vec<String>)
    ensures
        r.deep_view() == login_cmd(ip@),
{
    let mut target = String::from_str("root@");
    target.append(ip.as_str());
    let mut v: Vec<String> = Vec::new();
    push_arg(&mut v, "sshpass");
    push_arg(&mut v, "-p");
    push_arg(&mut v, "root");
    push_arg(&mut v, "ssh");
    push_arg(&mut v, "-tt");
    push_arg(&mut v, "-o");
    push_arg(&mut v, "StrictHostKeyChecking=no");
    push_arg(&mut v, "-o");
    push_arg(&mut v, "UserKnownHostsFile=/dev/null");
    push_arg(&mut v, "-o");
    push_arg(&mut v, "LogLevel=QUIET");
    push_arg(&mut v, "-o");
    push_arg(&mut v, "ServerAliveInterval=30");
    push_arg(&mut v, "-o");
    push_arg(&mut v, "ServerAliveCountMax=3");
    push_arg(&mut v, "-o");
    push_arg(&mut v, "ConnectTimeout=10");
    push_arg(&mut v, target.as_str());
    proof {
        assert(v.deep_view() =~~= login_cmd(ip@));
    }
    v
}

/// What one output relay iteration must do.
#[derive(Clone, Copy, Debug, PartialEq, Eq, Structural)]
pub enum RelayStep {
    /// Relay the first `n` read bytes to the client as one text chunk,
    /// under the session's shared sender guard, then read again.
    Forward(usize),
    /// End this relay task (which triggers whole-session teardown).
    Stop,
}

/// Decides one iteration of a subprocess-output relay (standard output
/// and standard error behave identically): a successful non-empty read
/// of `n` bytes (`Some(n)`) is forwarded; end of stream (`Some(0)`) or a
/// failed read (`None`) ends the relay.
pub fn relay_step(read: Option<usize>) -> (r: RelayStep)
    ensures
        match read {
            Some(n) => r == (if n == 0 {
                RelayStep::Stop
            } else {
                RelayStep::Forward(n)
            }),
            None => r == RelayStep::Stop,
        },
{
    match read {
        Some(n) => {
            if n == 0 {
                RelayStep::Stop
            } else {
                RelayStep::Forward(n)
            }
        },
        None => RelayStep::Stop,
    }
}

/// One frame received from the client, reduced to what the inbound relay
/// decides on.
#[derive(Clone, Copy, Debug, PartialEq, Eq, Structural)]
pub enum ClientMessage {
    /// A text frame.
    Text,
    /// The client closed the connection.
    ConnectionClosed,
    /// Receiving failed.
    ReceiveError,
    /// Any other frame kind.
    Other,
}

/// What one inbound relay iteration must do.
#[derive(Clone, Copy, Debug, PartialEq, Eq, Structural)]
pub enum InboundStep {
    /// Write the text to the subprocess's standard input under its
    /// shared guard and flush; write failures are logged, and the relay
    /// continues either way.
    WriteAndFlush,
    /// End this relay task.
    Stop,
    /// Skip the frame and keep receiving.
    Ignore,
}

/// Decides one iteration of the client-to-subprocess relay: text frames
/// are written and flushed, a close or a receive failure ends the relay,
/// anything else is ignored.
pub fn inbound_step(m: &ClientMessage) -> (r: InboundStep)
    ensures
        r == (match m {
            ClientMessage::Text => InboundStep::WriteAndFlush,
            ClientMessage::ConnectionClosed => InboundStep::Stop,
            ClientMessage::ReceiveError => InboundStep::Stop,
            ClientMessage::Other => InboundStep::Ignore,
        }),
{
    match m {
        ClientMessage::Text => InboundStep::WriteAndFlush,
        ClientMessage::ConnectionClosed => InboundStep::Stop,
        ClientMessage::ReceiveError => InboundStep::Stop,
        ClientMessage::Other => InboundStep::Ignore,
    }
}

} // verus!
