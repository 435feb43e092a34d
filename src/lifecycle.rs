use vstd::prelude::*;

verus! {

/// Where one accepted connection stands.
#[derive(PartialEq, Eq, Structural, Clone, Copy, Debug)]
pub enum ConnState {
    /// The socket was accepted; nothing was read yet.
    Accepted,
    /// The TLS handshake is under way.
    Handshaking,
    /// The handshake succeeded and HTTP is being served.
    Established,
    /// Serving ended, cleanly or on an error that was reported.
    Closed,
    /// The handshake failed; the error was reported and the socket dropped.
    Failed,
}

/// What happened to a connection since its last step.
#[derive(PartialEq, Eq, Structural, Clone, Copy, Debug)]
pub enum ConnEvent {
    /// The connection task started running.
    Started,
    /// The TLS handshake completed.
    HandshakeDone,
    /// The TLS handshake failed.
    HandshakeFailed,
    /// The peer closed the connection and serving ended without error.
    ServeDone,
    /// Serving ended on an I/O or protocol error.
    ServeFailed,
}

/// What the connection task does next.
#[derive(PartialEq, Eq, Structural, Clone, Copy, Debug)]
pub enum ConnAction {
    /// Run the TLS handshake on the socket.
    Handshake,
    /// Serve HTTP on the encrypted stream.
    Serve,
    /// Report the handshake error and drop the socket.
    ReportHandshakeError,
    /// Report the serving error and drop the stream.
    ReportServeError,
    /// Drop the connection; the task ends.
    Finish,
    /// Nothing: the event does not apply in this state.
    Wait,
}

/// A connection is over: nothing it does can change any more.
pub open spec fn is_terminal(s: ConnState) -> bool {
    s is Closed || s is Failed
}

/// One step of a connection's life cycle.
pub open spec fn next(s: ConnState, e: ConnEvent) -> (ConnState, ConnAction) {
    match (s, e) {
        (ConnState::Accepted, ConnEvent::Started) => (ConnState::Handshaking, ConnAction::Handshake),
        (ConnState::Handshaking, ConnEvent::HandshakeDone) => (
            ConnState::Established,
            ConnAction::Serve,
        ),
        (ConnState::Handshaking, ConnEvent::HandshakeFailed) => (
            ConnState::Failed,
            ConnAction::ReportHandshakeError,
        ),
        (ConnState::Established, ConnEvent::ServeDone) => (ConnState::Closed, ConnAction::Finish),
        (ConnState::Established, ConnEvent::ServeFailed) => (
            ConnState::Closed,
            ConnAction::ReportServeError,
        ),
        (ConnState::Closed, _) => (ConnState::Closed, ConnAction::Finish),
        (ConnState::Failed, _) => (ConnState::Failed, ConnAction::Finish),
        _ => (s, ConnAction::Wait),
    }
}

/// Advances a connection by one event and says what its task does next.
pub fn step(s: ConnState, e: ConnEvent) -> (r: (ConnState, ConnAction))
    ensures
        r == next(s, e),
{
    match (s, e) {
        (ConnState::Accepted, ConnEvent::Started) => (ConnState::Handshaking, ConnAction::Handshake),
        (ConnState::Handshaking, ConnEvent::HandshakeDone) => (
            ConnState::Established,
            ConnAction::Serve,
        ),
        (ConnState::Handshaking, ConnEvent::HandshakeFailed) => (
            ConnState::Failed,
            ConnAction::ReportHandshakeError,
        ),
        (ConnState::Established, ConnEvent::ServeDone) => (ConnState::Closed, ConnAction::Finish),
        (ConnState::Established, ConnEvent::ServeFailed) => (
            ConnState::Closed,
            ConnAction::ReportServeError,
        ),
        (ConnState::Closed, _) => (ConnState::Closed, ConnAction::Finish),
        (ConnState::Failed, _) => (ConnState::Failed, ConnAction::Finish),
        _ => (s, ConnAction::Wait),
    }
}

/// A connection runs its events one after another from `s`.
pub open spec fn run(s: ConnState, events: Seq<ConnEvent>) -> ConnState
    decreases events.len(),
{
    if events.len() == 0 {
        s
    } else {
        run(next(s, events[0]).0, events.drop_first())
    }
}

/// Once a connection is over it stays over, whatever else arrives.
pub proof fn lemma_terminal_is_final(s: ConnState, events: Seq<ConnEvent>)
    requires
        is_terminal(s),
    ensures
        run(s, events) == s,
    decreases events.len(),
{
    if events.len() > 0 {
        lemma_terminal_is_final(next(s, events[0]).0, events.drop_first());
    }
}

/// Every handshake or serving error is reported once, by the connection
/// itself, and ends that connection; no error step asks the accept loop
/// to do anything.
pub proof fn lemma_errors_end_the_connection(s: ConnState, e: ConnEvent)
    requires
        e is HandshakeFailed || e is ServeFailed,
    ensures
        s is Handshaking && e is HandshakeFailed ==> next(s, e) == (
            ConnState::Failed,
            ConnAction::ReportHandshakeError,
        ),
        s is Established && e is ServeFailed ==> next(s, e) == (
            ConnState::Closed,
            ConnAction::ReportServeError,
        ),
        is_terminal(s) ==> next(s, e).0 == s,
{
}

} // verus!
