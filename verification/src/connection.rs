//! The per-connection lifecycle.
//!
//! Each accepted raw connection is owned by one `ConnHandler`, which walks it
//! through handshake, backend dial, authentication, and the two concurrent
//! relay directions, to a closed connection. The handler decides every step;
//! the runtime around it performs the handshake, the dial, the authenticator
//! call and the relaying, and reports each outcome back. The model keeps the
//! authentication decision, the number of dials and the per-direction relay
//! outcomes, so the crate's invariants — one decision, one dial, no byte
//! relayed without an allow — are stated and proved over it.

use crate::authenticator::{AuthError, Authenticator, SessionInfo};
use crate::relay::RelayError;
use vstd::prelude::*;

verus! {

/// One of the two byte flows of a relayed connection.
#[derive(Clone, Copy, Debug, PartialEq, Eq, Structural)]
pub enum Direction {
    /// Plaintext read from the encrypted stream, written to the backend.
    ClientToBackend,
    /// Read from the backend, written to the encrypted stream.
    BackendToClient,
}

impl Direction {
    /// The diagnostic label a connection log carries for this direction.
    pub fn label(&self) -> (s: &'static str)
        ensures
            *self is ClientToBackend ==> s@ == "client-to-backend"@,
            *self is BackendToClient ==> s@ == "backend-to-client"@,
    {
        match self {
            Direction::ClientToBackend => "client-to-backend",
            Direction::BackendToClient => "backend-to-client",
        }
    }
}

/// Why a connection reached its closed state.
#[derive(Clone, Copy, Debug, PartialEq, Eq, Structural)]
pub enum CloseCause {
    /// The TLS handshake failed; no relay was attempted.
    HandshakeFailed,
    /// The backend could not be dialed; no relay was attempted.
    DialFailed,
    /// The authenticator denied the connection: a normal outcome, no relay.
    AuthDenied,
    /// The authenticator reported an error, treated as a denial.
    AuthFailed,
    /// Both relay directions ran to completion.
    Finished,
}

/// Where a connection stands in its lifecycle.
#[derive(Clone, Copy, Debug, PartialEq, Eq, Structural)]
pub enum ConnPhase {
    /// Handed over by the supervisor, nothing done yet.
    Accepted,
    /// The TLS accept handshake is in progress.
    Handshaking,
    /// The handshake succeeded; the backend has not been dialed.
    Handshaken,
    /// The dial to the backend target is in progress.
    Dialing,
    /// The backend stream is open; authentication has not begun.
    Dialed,
    /// The authenticator is deciding.
    Authenticating,
    /// Authentication allowed the connection; relaying has not begun.
    Authorized,
    /// Authentication denied the connection; it closes with no relay.
    Denied,
    /// Both relay directions are running; each finishes on its own schedule.
    Relaying,
    /// The connection is over, for the recorded cause.
    Closed(CloseCause),
}

/// The mathematical state of one connection.
pub struct ConnModel {
    /// The peer address, as reported when the connection was accepted.
    pub source: Seq<char>,
    /// The backend target address.
    pub target: Seq<char>,
    pub phase: ConnPhase,
    /// The authentication decision, once one was returned.
    pub decision: Option<bool>,
    /// How many times the backend has been dialed.
    pub dials: nat,
    /// The outcome of the client-to-backend direction, once it finished.
    pub up: Option<Result<u64, RelayError>>,
    /// The outcome of the backend-to-client direction, once it finished.
    pub down: Option<Result<u64, RelayError>>,
}

/// A freshly accepted connection.
pub open spec fn conn_init(source: Seq<char>, target: Seq<char>) -> ConnModel {
    ConnModel {
        source,
        target,
        phase: ConnPhase::Accepted,
        decision: None,
        dials: 0,
        up: None,
        down: None,
    }
}

/// The handshake starts as soon as the supervisor hands the connection over.
pub open spec fn conn_begin_handshake(m: ConnModel) -> ConnModel
    recommends
        m.phase is Accepted,
{
    ConnModel { phase: ConnPhase::Handshaking, ..m }
}

/// The TLS accept handshake succeeded.
pub open spec fn conn_handshake_ok(m: ConnModel) -> ConnModel
    recommends
        m.phase is Handshaking,
{
    ConnModel { phase: ConnPhase::Handshaken, ..m }
}

/// The TLS accept handshake failed: the connection closes, no relay.
pub open spec fn conn_handshake_failed(m: ConnModel) -> ConnModel
    recommends
        m.phase is Handshaking,
{
    ConnModel { phase: ConnPhase::Closed(CloseCause::HandshakeFailed), ..m }
}

/// The one dial of the backend target begins.
pub open spec fn conn_begin_dial(m: ConnModel) -> ConnModel
    recommends
        m.phase is Handshaken,
{
    ConnModel { phase: ConnPhase::Dialing, dials: m.dials + 1, ..m }
}

/// The backend stream is open.
pub open spec fn conn_dial_ok(m: ConnModel) -> ConnModel
    recommends
        m.phase is Dialing,
{
    ConnModel { phase: ConnPhase::Dialed, ..m }
}

/// The dial failed: the connection closes, no relay and no retry.
pub open spec fn conn_dial_failed(m: ConnModel) -> ConnModel
    recommends
        m.phase is Dialing,
{
    ConnModel { phase: ConnPhase::Closed(CloseCause::DialFailed), ..m }
}

/// The single authentication of the connection begins.
pub open spec fn conn_begin_auth(m: ConnModel) -> ConnModel
    recommends
        m.phase is Dialed,
{
    ConnModel { phase: ConnPhase::Authenticating, ..m }
}

/// The authenticator allowed the connection.
pub open spec fn conn_auth_allowed(m: ConnModel) -> ConnModel
    recommends
        m.phase is Authenticating,
{
    ConnModel { phase: ConnPhase::Authorized, decision: Some(true), ..m }
}

/// The authenticator denied the connection: a normal outcome, no relay.
pub open spec fn conn_auth_denied(m: ConnModel) -> ConnModel
    recommends
        m.phase is Authenticating,
{
    ConnModel { phase: ConnPhase::Denied, decision: Some(false), ..m }
}

/// The authenticator reported an error: treated as a denial, logged as a
/// failure, and the connection closes with no relay.
pub open spec fn conn_auth_failed(m: ConnModel) -> ConnModel
    recommends
        m.phase is Authenticating,
{
    ConnModel { phase: ConnPhase::Closed(CloseCause::AuthFailed), ..m }
}

/// A denied connection closes both streams cleanly.
pub open spec fn conn_close_denied(m: ConnModel) -> ConnModel
    recommends
        m.phase is Denied,
{
    ConnModel { phase: ConnPhase::Closed(CloseCause::AuthDenied), ..m }
}

/// The two relay directions are launched, both at once.
pub open spec fn conn_begin_relay(m: ConnModel) -> ConnModel
    recommends
        m.phase is Authorized,
{
    ConnModel { phase: ConnPhase::Relaying, ..m }
}

/// One relay direction finished, with a byte count or an error. The other
/// direction is unaffected and keeps running; the connection closes only
/// when both have finished.
pub open spec fn conn_direction_done(
    m: ConnModel,
    direction: Direction,
    outcome: Result<u64, RelayError>,
) -> ConnModel
    recommends
        m.phase is Relaying,
        direction is ClientToBackend ==> m.up is None,
        direction is BackendToClient ==> m.down is None,
{
    let up = if direction is ClientToBackend {
        Some(outcome)
    } else {
        m.up
    };
    let down = if direction is BackendToClient {
        Some(outcome)
    } else {
        m.down
    };
    let phase = if up is Some && down is Some {
        ConnPhase::Closed(CloseCause::Finished)
    } else {
        ConnPhase::Relaying
    };
    ConnModel { phase, up, down, ..m }
}

/// What holds of every reachable connection state:
/// the backend is dialed at most once, and exactly once past the dial;
/// the authentication decision is taken at most once, is `allow` on every
/// path that relays, and is `deny` exactly on the denied paths;
/// no relay direction has an outcome unless the decision was `allow`;
/// and a connection is finished only when both directions are.
pub open spec fn conn_inv(m: ConnModel) -> bool {
    &&& m.dials <= 1
    &&& (m.phase is Accepted || m.phase is Handshaking || m.phase is Handshaken) ==> m.dials == 0
    &&& (m.phase is Dialing || m.phase is Dialed || m.phase is Authenticating || m.phase
        is Authorized || m.phase is Denied || m.phase is Relaying) ==> m.dials == 1
    &&& m.phase == ConnPhase::Closed(CloseCause::HandshakeFailed) ==> m.dials == 0
    &&& (m.phase == ConnPhase::Closed(CloseCause::DialFailed) || m.phase == ConnPhase::Closed(
        CloseCause::AuthDenied,
    ) || m.phase == ConnPhase::Closed(CloseCause::AuthFailed) || m.phase == ConnPhase::Closed(
        CloseCause::Finished,
    )) ==> m.dials == 1
    &&& (m.phase is Accepted || m.phase is Handshaking || m.phase is Handshaken || m.phase
        is Dialing || m.phase is Dialed || m.phase is Authenticating) ==> m.decision is None
    &&& (m.phase is Authorized || m.phase is Relaying || m.phase == ConnPhase::Closed(
        CloseCause::Finished,
    )) ==> m.decision == Some(true)
    &&& (m.phase is Denied || m.phase == ConnPhase::Closed(CloseCause::AuthDenied))
        ==> m.decision == Some(false)
    &&& (m.phase == ConnPhase::Closed(CloseCause::HandshakeFailed) || m.phase == ConnPhase::Closed(
        CloseCause::DialFailed,
    ) || m.phase == ConnPhase::Closed(CloseCause::AuthFailed)) ==> m.decision is None
    &&& (m.up is Some || m.down is Some) ==> (m.phase is Relaying || m.phase == ConnPhase::Closed(
        CloseCause::Finished,
    ))
    &&& m.phase == ConnPhase::Closed(CloseCause::Finished) ==> (m.up is Some && m.down is Some)
    &&& m.phase is Relaying ==> !(m.up is Some && m.down is Some)
}

/// One event in a connection's life, as the runtime reports them.
pub enum ConnEvent {
    BeginHandshake,
    HandshakeOk,
    HandshakeFailed,
    BeginDial,
    DialOk,
    DialFailed,
    BeginAuth,
    AuthAllowed,
    AuthDenied,
    AuthFailed,
    CloseDenied,
    BeginRelay,
    DirectionDone { direction: Direction, outcome: Result<u64, RelayError> },
}

/// One step of a connection. An event its phase does not admit leaves the
/// model unchanged: in particular nothing moves a closed connection.
pub open spec fn conn_step(m: ConnModel, event: ConnEvent) -> ConnModel {
    match event {
        ConnEvent::BeginHandshake => if m.phase is Accepted {
            conn_begin_handshake(m)
        } else {
            m
        },
        ConnEvent::HandshakeOk => if m.phase is Handshaking {
            conn_handshake_ok(m)
        } else {
            m
        },
        ConnEvent::HandshakeFailed => if m.phase is Handshaking {
            conn_handshake_failed(m)
        } else {
            m
        },
        ConnEvent::BeginDial => if m.phase is Handshaken {
            conn_begin_dial(m)
        } else {
            m
        },
        ConnEvent::DialOk => if m.phase is Dialing {
            conn_dial_ok(m)
        } else {
            m
        },
        ConnEvent::DialFailed => if m.phase is Dialing {
            conn_dial_failed(m)
        } else {
            m
        },
        ConnEvent::BeginAuth => if m.phase is Dialed {
            conn_begin_auth(m)
        } else {
            m
        },
        ConnEvent::AuthAllowed => if m.phase is Authenticating {
            conn_auth_allowed(m)
        } else {
            m
        },
        ConnEvent::AuthDenied => if m.phase is Authenticating {
            conn_auth_denied(m)
        } else {
            m
        },
        ConnEvent::AuthFailed => if m.phase is Authenticating {
            conn_auth_failed(m)
        } else {
            m
        },
        ConnEvent::CloseDenied => if m.phase is Denied {
            conn_close_denied(m)
        } else {
            m
        },
        ConnEvent::BeginRelay => if m.phase is Authorized {
            conn_begin_relay(m)
        } else {
            m
        },
        ConnEvent::DirectionDone { direction, outcome } => {
            let free = if direction is ClientToBackend {
                m.up is None
            } else {
                m.down is None
            };
            if m.phase is Relaying && free {
                conn_direction_done(m, direction, outcome)
            } else {
                m
            }
        },
    }
}

/// A connection after a whole sequence of events.
pub open spec fn conn_run(m: ConnModel, events: Seq<ConnEvent>) -> ConnModel
    decreases events.len(),
{
    if events.len() == 0 {
        m
    } else {
        conn_run(conn_step(m, events[0]), events.skip(1))
    }
}

/// The connection invariant holds of a fresh connection.
pub proof fn lemma_conn_inv_init(source: Seq<char>, target: Seq<char>)
    ensures
        conn_inv(conn_init(source, target)),
{
}

/// The connection invariant is preserved by every step, so it holds of every
/// reachable connection state.
pub proof fn lemma_conn_inv_preserved(m: ConnModel, event: ConnEvent)
    requires
        conn_inv(m),
    ensures
        conn_inv(conn_step(m, event)),
{
}

/// The connection invariant is preserved by whole runs.
pub proof fn lemma_conn_inv_run(m: ConnModel, events: Seq<ConnEvent>)
    requires
        conn_inv(m),
    ensures
        conn_inv(conn_run(m, events)),
    decreases events.len(),
{
    if events.len() > 0 {
        lemma_conn_inv_preserved(m, events[0]);
        lemma_conn_inv_run(conn_step(m, events[0]), events.skip(1));
    }
}

/// Law: no byte is relayed before the authentication decision returns allow.
/// As long as the decision is anything but `allow` — pending, failed, or an
/// outright denial — neither direction has carried anything.
pub proof fn lemma_no_relay_without_allow(m: ConnModel)
    requires
        conn_inv(m),
        m.decision != Some(true),
    ensures
        m.up is None,
        m.down is None,
{
}

/// Law: a denied connection relays zero bytes in either direction and the
/// connection is (or closes) denied.
pub proof fn lemma_denied_relays_nothing(m: ConnModel)
    requires
        conn_inv(m),
        m.decision == Some(false),
    ensures
        m.up is None,
        m.down is None,
        m.phase is Denied || m.phase == ConnPhase::Closed(CloseCause::AuthDenied),
{
}

/// Law: at most one authentication decision is made per connection. Once a
/// decision is recorded, no step changes it.
pub proof fn lemma_decision_is_final(m: ConnModel, event: ConnEvent)
    requires
        conn_inv(m),
        m.decision is Some,
    ensures
        conn_step(m, event).decision == m.decision,
{
}

/// Law: the backend is dialed at most once per accepted connection — no
/// retries — and every connection that relays has dialed it exactly once.
pub proof fn lemma_dialed_at_most_once(m: ConnModel, event: ConnEvent)
    requires
        conn_inv(m),
    ensures
        conn_step(m, event).dials <= 1,
        m.phase is Relaying ==> m.dials == 1,
{
}

/// Law: a closed connection is over. No event reopens it, so a connection
/// never outlives its teardown.
pub proof fn lemma_closed_is_terminal(m: ConnModel, events: Seq<ConnEvent>)
    requires
        m.phase is Closed,
    ensures
        conn_run(m, events) == m,
    decreases events.len(),
{
    if events.len() > 0 {
        lemma_closed_is_terminal(m, events.skip(1));
    }
}

/// Law: a finished connection has outlived both of its relay directions:
/// each has reported its own outcome.
pub proof fn lemma_finished_has_both_outcomes(m: ConnModel)
    requires
        conn_inv(m),
        m.phase == ConnPhase::Closed(CloseCause::Finished),
    ensures
        m.up is Some,
        m.down is Some,
{
}

/// One accepted connection's lifecycle. The runtime that owns the sockets
/// performs each step — handshake, dial, authenticator call, the two relay
/// directions — and reports every outcome here; the handler decides what
/// follows and upholds the connection invariant throughout.
pub struct ConnHandler {
    source: String,
    target: String,
    phase: ConnPhase,
    decision: Option<bool>,
    dials: Ghost<nat>,
    up: Option<Result<u64, RelayError>>,
    down: Option<Result<u64, RelayError>>,
}

impl View for ConnHandler {
    type V = ConnModel;

    closed spec fn view(&self) -> ConnModel {
        ConnModel {
            source: self.source@,
            target: self.target@,
            phase: self.phase,
            decision: self.decision,
            dials: self.dials@,
            up: self.up,
            down: self.down,
        }
    }
}

impl ConnHandler {
    /// A handler for a connection just accepted from `source`, to be relayed
    /// to the backend at `target`.
    pub fn new(source: String, target: String) -> (handler: Self)
        ensures
            handler@ == conn_init(source@, target@),
            conn_inv(handler@),
    {
        ConnHandler {
            source,
            target,
            phase: ConnPhase::Accepted,
            decision: None,
            dials: Ghost(0),
            up: None,
            down: None,
        }
    }

    /// The peer address the connection came from.
    pub fn source(&self) -> (s: &String)
        ensures
            s@ == self@.source,
    {
        &self.source
    }

    /// The backend target the connection is relayed to.
    pub fn target(&self) -> (s: &String)
        ensures
            s@ == self@.target,
    {
        &self.target
    }

    /// Where the connection stands.
    pub fn phase(&self) -> (p: ConnPhase)
        ensures
            p == self@.phase,
    {
        self.phase
    }

    /// The recorded outcome of one relay direction, if it has finished.
    pub fn outcome(&self, direction: Direction) -> (r: Option<Result<u64, RelayError>>)
        ensures
            direction is ClientToBackend ==> r == self@.up,
            direction is BackendToClient ==> r == self@.down,
    {
        match direction {
            Direction::ClientToBackend => self.up,
            Direction::BackendToClient => self.down,
        }
    }

    /// The handshake starts.
    pub fn begin_handshake(&mut self)
        requires
            conn_inv(old(self)@),
            old(self)@.phase is Accepted,
        ensures
            conn_inv(final(self)@),
            final(self)@ == conn_begin_handshake(old(self)@),
    {
        self.phase = ConnPhase::Handshaking;
    }

    /// The TLS accept handshake succeeded.
    pub fn on_handshake_ok(&mut self)
        requires
            conn_inv(old(self)@),
            old(self)@.phase is Handshaking,
        ensures
            conn_inv(final(self)@),
            final(self)@ == conn_handshake_ok(old(self)@),
    {
        self.phase = ConnPhase::Handshaken;
    }

    /// The TLS accept handshake failed: close, no relay.
    pub fn on_handshake_failed(&mut self)
        requires
            conn_inv(old(self)@),
            old(self)@.phase is Handshaking,
        ensures
            conn_inv(final(self)@),
            final(self)@ == conn_handshake_failed(old(self)@),
    {
        self.phase = ConnPhase::Closed(CloseCause::HandshakeFailed);
    }

    /// The one dial of the backend begins.
    pub fn begin_dial(&mut self)
        requires
            conn_inv(old(self)@),
            old(self)@.phase is Handshaken,
        ensures
            conn_inv(final(self)@),
            final(self)@ == conn_begin_dial(old(self)@),
            final(self)@.dials == 1,
    {
        self.phase = ConnPhase::Dialing;
        proof {
            self.dials@ = self.dials@ + 1;
        }
    }

    /// The backend stream is open.
    pub fn on_dial_ok(&mut self)
        requires
            conn_inv(old(self)@),
            old(self)@.phase is Dialing,
        ensures
            conn_inv(final(self)@),
            final(self)@ == conn_dial_ok(old(self)@),
    {
        self.phase = ConnPhase::Dialed;
    }

    /// The dial failed: close, no relay, no retry.
    pub fn on_dial_failed(&mut self)
        requires
            conn_inv(old(self)@),
            old(self)@.phase is Dialing,
        ensures
            conn_inv(final(self)@),
            final(self)@ == conn_dial_failed(old(self)@),
    {
        self.phase = ConnPhase::Closed(CloseCause::DialFailed);
    }

    /// The single authentication of the connection begins.
    pub fn begin_authentication(&mut self)
        requires
            conn_inv(old(self)@),
            old(self)@.phase is Dialed,
        ensures
            conn_inv(final(self)@),
            final(self)@ == conn_begin_auth(old(self)@),
    {
        self.phase = ConnPhase::Authenticating;
    }

    /// The authenticator's verdict arrives: `Ok(true)` authorizes the relay,
    /// `Ok(false)` denies it, and an error counts as a denial and closes the
    /// connection as a failure.
    pub fn on_auth_decision(&mut self, verdict: &Result<bool, AuthError>)
        requires
            conn_inv(old(self)@),
            old(self)@.phase is Authenticating,
        ensures
            conn_inv(final(self)@),
            verdict matches Ok(allowed) ==> final(self)@ == (if *allowed {
                conn_auth_allowed(old(self)@)
            } else {
                conn_auth_denied(old(self)@)
            }),
            verdict is Err ==> final(self)@ == conn_auth_failed(old(self)@),
    {
        match verdict {
            Ok(true) => {
                self.phase = ConnPhase::Authorized;
                self.decision = Some(true);
            },
            Ok(false) => {
                self.phase = ConnPhase::Denied;
                self.decision = Some(false);
            },
            Err(_) => {
                self.phase = ConnPhase::Closed(CloseCause::AuthFailed);
            },
        }
    }

    /// Consult an authenticator on this connection's session data and apply
    /// its verdict, which is returned for the connection log. This is the one
    /// authentication of the connection.
    pub fn authenticate_with<A: Authenticator>(&mut self, authenticator: &A) -> (verdict: Result<
        bool,
        AuthError,
    >)
        requires
            conn_inv(old(self)@),
            old(self)@.phase is Dialed,
        ensures
            conn_inv(final(self)@),
            verdict matches Ok(allowed) ==> final(self)@ == (if allowed {
                conn_auth_allowed(conn_begin_auth(old(self)@))
            } else {
                conn_auth_denied(conn_begin_auth(old(self)@))
            }),
            verdict is Err ==> final(self)@ == conn_auth_failed(conn_begin_auth(old(self)@)),
    {
        self.begin_authentication();
        let session = SessionInfo { source: self.source.clone(), target: self.target.clone() };
        let verdict = authenticator.authenticate(&session);
        self.on_auth_decision(&verdict);
        verdict
    }

    /// A denied connection closes both streams cleanly.
    pub fn close_denied(&mut self)
        requires
            conn_inv(old(self)@),
            old(self)@.phase is Denied,
        ensures
            conn_inv(final(self)@),
            final(self)@ == conn_close_denied(old(self)@),
    {
        self.phase = ConnPhase::Closed(CloseCause::AuthDenied);
    }

    /// Both relay directions are launched, to run concurrently; neither is
    /// cancelled when the other finishes.
    pub fn begin_relay(&mut self)
        requires
            conn_inv(old(self)@),
            old(self)@.phase is Authorized,
        ensures
            conn_inv(final(self)@),
            final(self)@ == conn_begin_relay(old(self)@),
    {
        self.phase = ConnPhase::Relaying;
    }

    /// One relay direction finished with a byte count or an error; the other
    /// keeps running. The connection closes when both have reported.
    pub fn on_direction_done(&mut self, direction: Direction, outcome: Result<u64, RelayError>)
        requires
            conn_inv(old(self)@),
            old(self)@.phase is Relaying,
            direction is ClientToBackend ==> old(self)@.up is None,
            direction is BackendToClient ==> old(self)@.down is None,
        ensures
            conn_inv(final(self)@),
            final(self)@ == conn_direction_done(old(self)@, direction, outcome),
    {
        match direction {
            Direction::ClientToBackend => {
                self.up = Some(outcome);
            },
            Direction::BackendToClient => {
                self.down = Some(outcome);
            },
        }
        if self.up.is_some() && self.down.is_some() {
            self.phase = ConnPhase::Closed(CloseCause::Finished);
        }
    }
}

} // verus!

