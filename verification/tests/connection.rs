//! The per-connection state machine: mode gating, serving transitions, and
//! failure isolation at the connection boundary.
use rrproxy::ConnAction;
use rrproxy::ConnEvent;
use rrproxy::ConnPhase;
use rrproxy::TransportMode;
use rrproxy::conn_step;
use rrproxy::phase_after_accept;

#[test]
fn tls_mode_handshakes_before_serving() {
    // The mode is a single startup-time branch: under TLS every accepted
    // connection handshakes first; in plain mode none does.
    assert_eq!(phase_after_accept(TransportMode::Tls), ConnPhase::Handshaking);
    assert_eq!(phase_after_accept(TransportMode::Plain), ConnPhase::Serving);
}

#[test]
fn handshake_outcome_decides_serving() {
    assert_eq!(
        conn_step(ConnPhase::Handshaking, ConnEvent::HandshakeDone),
        (ConnPhase::Serving, ConnAction::Await)
    );
    assert_eq!(
        conn_step(ConnPhase::Handshaking, ConnEvent::HandshakeFailed),
        (ConnPhase::Closed, ConnAction::LogAndClose)
    );
}

#[test]
fn serving_dispatches_each_request_and_survives() {
    assert_eq!(
        conn_step(ConnPhase::Serving, ConnEvent::RequestDecoded),
        (ConnPhase::Serving, ConnAction::Forward)
    );
    assert_eq!(
        conn_step(ConnPhase::Serving, ConnEvent::ResponseWritten),
        (ConnPhase::Serving, ConnAction::Await)
    );
}

#[test]
fn serving_errors_close_and_log_this_connection() {
    assert_eq!(
        conn_step(ConnPhase::Serving, ConnEvent::ServeFailed),
        (ConnPhase::Closed, ConnAction::LogAndClose)
    );
    assert_eq!(
        conn_step(ConnPhase::Serving, ConnEvent::PeerClosed),
        (ConnPhase::Closed, ConnAction::Close)
    );
}

#[test]
fn closed_stays_closed() {
    for event in [
        ConnEvent::HandshakeDone,
        ConnEvent::HandshakeFailed,
        ConnEvent::RequestDecoded,
        ConnEvent::ResponseWritten,
        ConnEvent::ServeFailed,
        ConnEvent::PeerClosed,
    ] {
        let (phase, action) = conn_step(ConnPhase::Closed, event);
        assert_eq!(phase, ConnPhase::Closed);
        assert_ne!(action, ConnAction::Forward);
    }
}

#[test]
fn one_failed_connection_leaves_another_serving() {
    // Two connections advance independently: a serving failure on the first
    // leaves the second still serving and still forwarding its requests.
    let first = conn_step(ConnPhase::Serving, ConnEvent::ServeFailed);
    let mut second = ConnPhase::Serving;
    assert_eq!(first.0, ConnPhase::Closed);
    let (next, action) = conn_step(second, ConnEvent::RequestDecoded);
    second = next;
    assert_eq!(second, ConnPhase::Serving);
    assert_eq!(action, ConnAction::Forward);
}
