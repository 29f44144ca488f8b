//! The per-connection state machine of the listener: each accepted
//! connection, independently, optionally handshakes, then serves HTTP/1
//! requests until it closes. One connection's failure closes that connection
//! alone; the transitions below never touch another connection's state.
use vstd::prelude::*;

verus! {

/// The transport mode, chosen once at startup and fixed for the process
/// lifetime: there is no per-connection protocol sniffing.
#[derive(Clone, Copy, Debug, PartialEq, Eq, Structural)]
pub enum TransportMode {
    /// Serve HTTP/1 directly on the accepted stream.
    Plain,
    /// Perform a server-side TLS handshake, then serve HTTP/1 over it.
    Tls,
}

/// The phase of one accepted connection.
#[derive(Clone, Copy, Debug, PartialEq, Eq, Structural)]
pub enum ConnPhase {
    /// Waiting for the TLS handshake on this connection to finish.
    Handshaking,
    /// Decoding requests and writing responses on this connection.
    Serving,
    /// This connection is finished; its resources are released.
    Closed,
}

/// What the transport reports about one connection.
#[derive(Clone, Copy, Debug, PartialEq, Eq, Structural)]
pub enum ConnEvent {
    /// The TLS handshake completed.
    HandshakeDone,
    /// The TLS handshake failed (protocol mismatch, no cipher, bad hello).
    HandshakeFailed,
    /// A complete request was decoded on this connection.
    RequestDecoded,
    /// The response for the current request was written back.
    ResponseWritten,
    /// The serving loop failed: a decode error, a write error, or a
    /// forwarding failure surfaced as a connection error.
    ServeFailed,
    /// The peer closed the connection.
    PeerClosed,
}

/// What the runner must do next for this one connection.
#[derive(Clone, Copy, Debug, PartialEq, Eq, Structural)]
pub enum ConnAction {
    /// Await the next transport event on this connection.
    Await,
    /// Dispatch the decoded request through the request forwarder.
    Forward,
    /// Log the error for this connection and release it.
    LogAndClose,
    /// Release this connection without logging.
    Close,
}

/// The phase a connection enters when accepted: under TLS every connection
/// handshakes first; in plain mode it serves directly.
pub fn phase_after_accept(mode: TransportMode) -> (r: ConnPhase)
    ensures
        r == if mode is Tls {
            ConnPhase::Handshaking
        } else {
            ConnPhase::Serving
        },
{
    match mode {
        TransportMode::Tls => ConnPhase::Handshaking,
        TransportMode::Plain => ConnPhase::Serving,
    }
}

/// The transition of one connection on one event, as a pair of next phase
/// and action for the runner.
pub open spec fn spec_conn_step(phase: ConnPhase, event: ConnEvent) -> (ConnPhase, ConnAction) {
    match (phase, event) {
        (ConnPhase::Handshaking, ConnEvent::HandshakeDone) => (ConnPhase::Serving, ConnAction::Await),
        (ConnPhase::Handshaking, _) => (ConnPhase::Closed, ConnAction::LogAndClose),
        (ConnPhase::Serving, ConnEvent::RequestDecoded) => (ConnPhase::Serving, ConnAction::Forward),
        (ConnPhase::Serving, ConnEvent::ResponseWritten) => (ConnPhase::Serving, ConnAction::Await),
        (ConnPhase::Serving, ConnEvent::ServeFailed) => (ConnPhase::Closed, ConnAction::LogAndClose),
        (ConnPhase::Serving, _) => (ConnPhase::Closed, ConnAction::Close),
        (ConnPhase::Closed, _) => (ConnPhase::Closed, ConnAction::Close),
    }
}

/// Advance one connection by one event. A handshake failure or serving error
/// closes — and logs — this connection only; a peer close releases it
/// quietly; multiple requests are served in sequence on one connection, each
/// dispatched through the forwarder. No transition leaves `Closed`.
pub fn conn_step(phase: ConnPhase, event: ConnEvent) -> (r: (ConnPhase, ConnAction))
    ensures
        r == spec_conn_step(phase, event),
{
    match (phase, event) {
        (ConnPhase::Handshaking, ConnEvent::HandshakeDone) => (
            ConnPhase::Serving,
            ConnAction::Await,
        ),
        (ConnPhase::Handshaking, _) => (ConnPhase::Closed, ConnAction::LogAndClose),
        (ConnPhase::Serving, ConnEvent::RequestDecoded) => (ConnPhase::Serving, ConnAction::Forward),
        (ConnPhase::Serving, ConnEvent::ResponseWritten) => (ConnPhase::Serving, ConnAction::Await),
        (ConnPhase::Serving, ConnEvent::ServeFailed) => (ConnPhase::Closed, ConnAction::LogAndClose),
        (ConnPhase::Serving, _) => (ConnPhase::Closed, ConnAction::Close),
        (ConnPhase::Closed, _) => (ConnPhase::Closed, ConnAction::Close),
    }
}

/// Once a connection has closed, no event revives it: every later transition
/// stays in `Closed` and never asks the runner to forward anything.
pub proof fn lemma_closed_is_final(event: ConnEvent)
    ensures
        spec_conn_step(ConnPhase::Closed, event).0 == ConnPhase::Closed,
        spec_conn_step(ConnPhase::Closed, event).1 != ConnAction::Forward,
{
}

/// Only a serving connection ever dispatches a request, and dispatching
/// keeps it serving: requests on one connection are handled in sequence.
pub proof fn lemma_forward_only_while_serving(phase: ConnPhase, event: ConnEvent)
    ensures
        spec_conn_step(phase, event).1 == ConnAction::Forward <==> phase == ConnPhase::Serving
            && event == ConnEvent::RequestDecoded,
        spec_conn_step(phase, event).1 == ConnAction::Forward ==> spec_conn_step(phase, event).0
            == ConnPhase::Serving,
{
}

} // verus!
