use flv_tls_proxy::authenticator::{AuthError, Authenticator, NullAuthenticator, SessionInfo};
use flv_tls_proxy::connection::{CloseCause, ConnHandler, ConnPhase, Direction};
use flv_tls_proxy::relay::RelayError;

/// An authenticator that denies every connection.
struct DenyAll;

impl Authenticator for DenyAll {
    fn authenticate(&self, _session: &SessionInfo) -> Result<bool, AuthError> {
        Ok(false)
    }
}

/// An authenticator that cannot reach a decision.
struct Broken;

impl Authenticator for Broken {
    fn authenticate(&self, _session: &SessionInfo) -> Result<bool, AuthError> {
        Err(AuthError { message: String::from("decision unavailable") })
    }
}

fn handler() -> ConnHandler {
    ConnHandler::new(String::from("192.0.2.7:4242"), String::from("127.0.0.1:9000"))
}

/// Drive one whole connection the way the runtime does: handshake, dial,
/// authenticate, and relay the client's payload to the backend only if the
/// handler authorizes it.
fn run_connection<A: Authenticator>(
    authenticator: &A,
    payload: &[u8],
) -> (ConnHandler, flv_tls_proxy::relay::ChunkSink) {
    let mut backend = flv_tls_proxy::relay::ChunkSink::new(1024);
    let mut h = handler();
    h.begin_handshake();
    h.on_handshake_ok();
    h.begin_dial();
    h.on_dial_ok();
    match h.authenticate_with(authenticator) {
        Ok(true) => {
            h.begin_relay();
            let data: Vec<u8> = payload.to_vec();
            let sent = flv_tls_proxy::relay::copy(&data, &mut backend).expect("relay");
            h.on_direction_done(Direction::ClientToBackend, Ok(sent));
            h.on_direction_done(Direction::BackendToClient, Ok(0));
        }
        Ok(false) => h.close_denied(),
        Err(_) => {}
    }
    (h, backend)
}

/// The full happy path: handshake, dial, allow, relay both directions, close.
#[test]
fn lifecycle_happy_path() {
    let mut h = handler();
    assert_eq!(h.phase(), ConnPhase::Accepted);
    assert_eq!(h.source(), "192.0.2.7:4242");
    assert_eq!(h.target(), "127.0.0.1:9000");
    h.begin_handshake();
    assert_eq!(h.phase(), ConnPhase::Handshaking);
    h.on_handshake_ok();
    assert_eq!(h.phase(), ConnPhase::Handshaken);
    h.begin_dial();
    assert_eq!(h.phase(), ConnPhase::Dialing);
    h.on_dial_ok();
    assert_eq!(h.phase(), ConnPhase::Dialed);
    let verdict = h.authenticate_with(&NullAuthenticator);
    assert!(matches!(verdict, Ok(true)));
    assert_eq!(h.phase(), ConnPhase::Authorized);
    h.begin_relay();
    assert_eq!(h.phase(), ConnPhase::Relaying);
    h.on_direction_done(Direction::ClientToBackend, Ok(80));
    assert_eq!(h.phase(), ConnPhase::Relaying);
    h.on_direction_done(Direction::BackendToClient, Ok(130));
    assert_eq!(h.phase(), ConnPhase::Closed(CloseCause::Finished));
    assert_eq!(h.outcome(Direction::ClientToBackend), Some(Ok(80)));
    assert_eq!(h.outcome(Direction::BackendToClient), Some(Ok(130)));
}

/// A failed handshake closes the connection with no relay attempted.
#[test]
fn handshake_failure_closes() {
    let mut h = handler();
    h.begin_handshake();
    h.on_handshake_failed();
    assert_eq!(h.phase(), ConnPhase::Closed(CloseCause::HandshakeFailed));
    assert_eq!(h.outcome(Direction::ClientToBackend), None);
    assert_eq!(h.outcome(Direction::BackendToClient), None);
}

/// A failed dial closes the connection with no relay attempted.
#[test]
fn dial_failure_closes() {
    let mut h = handler();
    h.begin_handshake();
    h.on_handshake_ok();
    h.begin_dial();
    h.on_dial_failed();
    assert_eq!(h.phase(), ConnPhase::Closed(CloseCause::DialFailed));
    assert_eq!(h.outcome(Direction::ClientToBackend), None);
    assert_eq!(h.outcome(Direction::BackendToClient), None);
}

/// An allowed connection relays the payload: the backend receives it whole.
#[test]
fn allowed_connection_relays_payload() {
    let (h, backend) = run_connection(&NullAuthenticator, b"hello backend");
    assert_eq!(h.phase(), ConnPhase::Closed(CloseCause::Finished));
    assert_eq!(h.outcome(Direction::ClientToBackend), Some(Ok(13)));
    assert_eq!(backend.data, b"hello backend".to_vec());
}

/// A denial is a normal outcome: the connection closes cleanly, neither
/// direction ever carries a byte, and no data arrives at the backend.
#[test]
fn denied_connection_relays_nothing() {
    let (h, backend) = run_connection(&DenyAll, b"hello backend");
    assert_eq!(h.phase(), ConnPhase::Closed(CloseCause::AuthDenied));
    assert_eq!(h.outcome(Direction::ClientToBackend), None);
    assert_eq!(h.outcome(Direction::BackendToClient), None);
    assert!(backend.data.is_empty());
}

/// An authenticator error aborts the connection as a failure, with no relay
/// and nothing at the backend.
#[test]
fn auth_error_closes_as_failure() {
    let (h, backend) = run_connection(&Broken, b"hello backend");
    assert_eq!(h.phase(), ConnPhase::Closed(CloseCause::AuthFailed));
    assert_eq!(h.outcome(Direction::ClientToBackend), None);
    assert_eq!(h.outcome(Direction::BackendToClient), None);
    assert!(backend.data.is_empty());
}

/// The verdict can also be applied directly, as the runtime does when the
/// authenticator runs over the live streams.
#[test]
fn auth_decision_applied_directly() {
    let mut h = handler();
    h.begin_handshake();
    h.on_handshake_ok();
    h.begin_dial();
    h.on_dial_ok();
    h.begin_authentication();
    assert_eq!(h.phase(), ConnPhase::Authenticating);
    h.on_auth_decision(&Ok(true));
    assert_eq!(h.phase(), ConnPhase::Authorized);
}

/// One direction failing does not disturb the other: each reports its own
/// outcome, and the connection closes when both have.
#[test]
fn directions_finish_independently() {
    let mut h = handler();
    h.begin_handshake();
    h.on_handshake_ok();
    h.begin_dial();
    h.on_dial_ok();
    h.begin_authentication();
    h.on_auth_decision(&Ok(true));
    h.begin_relay();
    h.on_direction_done(Direction::BackendToClient, Err(RelayError::WriteZero));
    assert_eq!(h.phase(), ConnPhase::Relaying);
    assert_eq!(h.outcome(Direction::ClientToBackend), None);
    h.on_direction_done(Direction::ClientToBackend, Ok(17));
    assert_eq!(h.phase(), ConnPhase::Closed(CloseCause::Finished));
    assert_eq!(h.outcome(Direction::ClientToBackend), Some(Ok(17)));
    assert_eq!(h.outcome(Direction::BackendToClient), Some(Err(RelayError::WriteZero)));
}

/// The direction labels a connection log carries.
#[test]
fn direction_labels() {
    assert_eq!(Direction::ClientToBackend.label(), "client-to-backend");
    assert_eq!(Direction::BackendToClient.label(), "backend-to-client");
}

/// The null authenticator allows any session.
#[test]
fn null_authenticator_allows() {
    let session = SessionInfo {
        source: String::from("198.51.100.2:1"),
        target: String::from("127.0.0.1:9000"),
    };
    assert!(matches!(NullAuthenticator.authenticate(&session), Ok(true)));
}
