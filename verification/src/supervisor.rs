//! The accept-loop supervisor.
//!
//! The supervisor owns the listener for its whole life: it binds, then races
//! "a raw connection arrived" against "the termination signal fired", handing
//! each accepted connection to a fresh `ConnHandler` that runs concurrently
//! with the loop. The runtime does the binding, accepting and waiting and
//! reports each outcome here; the supervisor decides whether to admit, stop
//! or fail. Stopping never touches the connections already admitted: the
//! termination signal only stops admission, and in-flight relays run to their
//! natural completion.

use crate::connection::{conn_init, conn_inv, ConnHandler};
use vstd::prelude::*;

verus! {

/// The supervisor's immutable configuration, fixed before it starts.
pub struct ListenerConfig {
    /// The address the listener binds.
    pub bind_address: String,
    /// The backend target every accepted connection is relayed to.
    pub backend_target: String,
}

/// Why the supervisor stopped admitting connections. Every one of these is a
/// successful stop: only a bind failure makes the supervisor fail.
#[derive(Clone, Copy, Debug, PartialEq, Eq, Structural)]
pub enum StopCause {
    /// The termination signal fired.
    Terminated,
    /// The listener reported an accept error: a listener that cannot accept
    /// is no longer useful, so the loop exits.
    AcceptFailed,
    /// The listener produced no further connections.
    ListenerClosed,
}

/// Where the supervisor stands.
#[derive(Clone, Copy, Debug, PartialEq, Eq, Structural)]
pub enum SupPhase {
    /// Binding the listener to the configured address.
    Binding,
    /// Accepting connections, racing the termination signal.
    Listening,
    /// No longer admitting; already-admitted connections are unaffected.
    Stopped(StopCause),
    /// The bind failed: the supervisor never started.
    Failed,
}

/// The mathematical state of the supervisor.
pub struct SupModel {
    pub bind_address: Seq<char>,
    pub backend_target: Seq<char>,
    pub phase: SupPhase,
    /// How many connections have been admitted and handed to handlers.
    pub admitted: nat,
}

/// A supervisor about to bind its listener.
pub open spec fn sup_init(bind_address: Seq<char>, backend_target: Seq<char>) -> SupModel {
    SupModel { bind_address, backend_target, phase: SupPhase::Binding, admitted: 0 }
}

/// The listener is bound: the accept loop begins.
pub open spec fn sup_bind_ok(m: SupModel) -> SupModel
    recommends
        m.phase is Binding,
{
    SupModel { phase: SupPhase::Listening, ..m }
}

/// The bind failed: fatal at startup, the supervisor does not start.
pub open spec fn sup_bind_failed(m: SupModel) -> SupModel
    recommends
        m.phase is Binding,
{
    SupModel { phase: SupPhase::Failed, ..m }
}

/// A raw connection arrived and is admitted: a fresh handler takes it over,
/// concurrent with the loop, and the loop goes straight back to accepting.
pub open spec fn sup_admit(m: SupModel) -> SupModel
    recommends
        m.phase is Listening,
{
    SupModel { admitted: m.admitted + 1, ..m }
}

/// The termination signal fired: stop admitting, and nothing else. The count
/// of admitted connections stands, and their handlers are never signalled.
pub open spec fn sup_terminate(m: SupModel) -> SupModel
    recommends
        m.phase is Listening,
{
    SupModel { phase: SupPhase::Stopped(StopCause::Terminated), ..m }
}

/// The listener reported an accept error: the loop exits.
pub open spec fn sup_accept_failed(m: SupModel) -> SupModel
    recommends
        m.phase is Listening,
{
    SupModel { phase: SupPhase::Stopped(StopCause::AcceptFailed), ..m }
}

/// The listener produced no further connections: the loop exits.
pub open spec fn sup_listener_closed(m: SupModel) -> SupModel
    recommends
        m.phase is Listening,
{
    SupModel { phase: SupPhase::Stopped(StopCause::ListenerClosed), ..m }
}

/// Whether a supervisor that has come to rest reports success. Every stop of
/// the accept loop — termination, accept error, a closed listener — is a
/// success; only a bind failure is an error.
pub open spec fn sup_succeeded(m: SupModel) -> bool
    recommends
        m.phase is Stopped || m.phase is Failed,
{
    m.phase is Stopped
}

/// One event in the supervisor's life, as the runtime reports them.
pub enum SupEvent {
    BindOk,
    BindFailed,
    Admit,
    Terminate,
    AcceptFailed,
    ListenerClosed,
}

/// One step of the supervisor. An event its phase does not admit leaves the
/// model unchanged: in particular nothing moves a stopped or failed
/// supervisor.
pub open spec fn sup_step(m: SupModel, event: SupEvent) -> SupModel {
    match event {
        SupEvent::BindOk => if m.phase is Binding {
            sup_bind_ok(m)
        } else {
            m
        },
        SupEvent::BindFailed => if m.phase is Binding {
            sup_bind_failed(m)
        } else {
            m
        },
        SupEvent::Admit => if m.phase is Listening {
            sup_admit(m)
        } else {
            m
        },
        SupEvent::Terminate => if m.phase is Listening {
            sup_terminate(m)
        } else {
            m
        },
        SupEvent::AcceptFailed => if m.phase is Listening {
            sup_accept_failed(m)
        } else {
            m
        },
        SupEvent::ListenerClosed => if m.phase is Listening {
            sup_listener_closed(m)
        } else {
            m
        },
    }
}

/// The supervisor after a whole sequence of events.
pub open spec fn sup_run(m: SupModel, events: Seq<SupEvent>) -> SupModel
    decreases events.len(),
{
    if events.len() == 0 {
        m
    } else {
        sup_run(sup_step(m, events[0]), events.skip(1))
    }
}

/// Law: the termination signal stops admission and does nothing else. The
/// supervisor comes to rest successfully — its start call returns — and the
/// connections admitted so far are exactly those admitted before the signal.
pub proof fn lemma_terminate_stops_admission_only(m: SupModel)
    requires
        m.phase is Listening,
    ensures
        sup_terminate(m).phase == SupPhase::Stopped(StopCause::Terminated),
        sup_terminate(m).admitted == m.admitted,
        sup_succeeded(sup_terminate(m)),
{
}

/// Law: the termination signal fired before any connection was accepted
/// stops the supervisor at once, successfully, with no connection admitted —
/// the start call returns instead of waiting for a would-be next connection.
pub proof fn lemma_terminate_before_first_connection(m: SupModel)
    requires
        m.phase is Listening,
        m.admitted == 0,
    ensures
        sup_terminate(m).phase == SupPhase::Stopped(StopCause::Terminated),
        sup_terminate(m).admitted == 0,
        sup_succeeded(sup_terminate(m)),
{
}

/// Law: admissions only accumulate. No event un-admits a connection: once a
/// connection has been handed to its handler, the supervisor never takes it
/// back — stopping, in particular, leaves every admitted connection running.
pub proof fn lemma_admissions_only_grow(m: SupModel, events: Seq<SupEvent>)
    ensures
        sup_run(m, events).admitted >= m.admitted,
    decreases events.len(),
{
    if events.len() > 0 {
        lemma_admissions_only_grow(sup_step(m, events[0]), events.skip(1));
    }
}

/// Law: a stopped (or failed) supervisor admits nothing more, whatever
/// events follow: once the termination signal has been observed, no new
/// connection is ever accepted.
pub proof fn lemma_stopped_admits_nothing(m: SupModel, events: Seq<SupEvent>)
    requires
        m.phase is Stopped || m.phase is Failed,
    ensures
        sup_run(m, events) == m,
    decreases events.len(),
{
    if events.len() > 0 {
        lemma_stopped_admits_nothing(m, events.skip(1));
    }
}

/// The supervisor. The runtime binds the listener, waits on the race between
/// the next raw connection and the termination signal, and reports what
/// happened; the supervisor decides, counts admissions, and hands each
/// admitted connection to a fresh handler.
pub struct Supervisor {
    bind_address: String,
    backend_target: String,
    phase: SupPhase,
    admitted: u64,
}

impl View for Supervisor {
    type V = SupModel;

    closed spec fn view(&self) -> SupModel {
        SupModel {
            bind_address: self.bind_address@,
            backend_target: self.backend_target@,
            phase: self.phase,
            admitted: self.admitted as nat,
        }
    }
}

impl Supervisor {
    /// A supervisor for the given configuration, ready to bind.
    pub fn new(config: ListenerConfig) -> (supervisor: Self)
        ensures
            supervisor@ == sup_init(config.bind_address@, config.backend_target@),
    {
        Supervisor {
            bind_address: config.bind_address,
            backend_target: config.backend_target,
            phase: SupPhase::Binding,
            admitted: 0,
        }
    }

    /// The address the listener binds.
    pub fn bind_address(&self) -> (s: &String)
        ensures
            s@ == self@.bind_address,
    {
        &self.bind_address
    }

    /// The backend target every connection is relayed to.
    pub fn backend_target(&self) -> (s: &String)
        ensures
            s@ == self@.backend_target,
    {
        &self.backend_target
    }

    /// Where the supervisor stands.
    pub fn phase(&self) -> (p: SupPhase)
        ensures
            p == self@.phase,
    {
        self.phase
    }

    /// How many connections have been admitted.
    pub fn admitted(&self) -> (n: u64)
        ensures
            n as nat == self@.admitted,
    {
        self.admitted
    }

    /// The listener is bound: start accepting.
    pub fn on_bind_ok(&mut self)
        requires
            old(self)@.phase is Binding,
        ensures
            final(self)@ == sup_bind_ok(old(self)@),
    {
        self.phase = SupPhase::Listening;
    }

    /// The bind failed: the supervisor never starts, and its start call
    /// reports the bind error.
    pub fn on_bind_failed(&mut self)
        requires
            old(self)@.phase is Binding,
        ensures
            final(self)@ == sup_bind_failed(old(self)@),
    {
        self.phase = SupPhase::Failed;
    }

    /// Admit a raw connection from `source`: count it and hand it to a fresh
    /// handler, which runs concurrently with the accept loop — the loop never
    /// waits for a connection's relay before accepting the next.
    pub fn accept_connection(&mut self, source: String) -> (handler: ConnHandler)
        requires
            old(self)@.phase is Listening,
            old(self)@.admitted < u64::MAX,
        ensures
            final(self)@ == sup_admit(old(self)@),
            handler@ == conn_init(source@, final(self)@.backend_target),
            conn_inv(handler@),
    {
        self.admitted = self.admitted + 1;
        ConnHandler::new(source, self.backend_target.clone())
    }

    /// The termination signal fired: stop admitting. Admitted connections
    /// are not cancelled and their handlers never hear of the signal.
    pub fn on_terminate(&mut self)
        requires
            old(self)@.phase is Listening,
        ensures
            final(self)@ == sup_terminate(old(self)@),
            final(self)@.admitted == old(self)@.admitted,
    {
        self.phase = SupPhase::Stopped(StopCause::Terminated);
    }

    /// The listener reported an accept error: stop the loop.
    pub fn on_accept_failed(&mut self)
        requires
            old(self)@.phase is Listening,
        ensures
            final(self)@ == sup_accept_failed(old(self)@),
    {
        self.phase = SupPhase::Stopped(StopCause::AcceptFailed);
    }

    /// The listener produced no further connections: stop the loop.
    pub fn on_listener_closed(&mut self)
        requires
            old(self)@.phase is Listening,
        ensures
            final(self)@ == sup_listener_closed(old(self)@),
    {
        self.phase = SupPhase::Stopped(StopCause::ListenerClosed);
    }

    /// Whether the supervisor, now at rest, reports success to its caller.
    pub fn succeeded(&self) -> (ok: bool)
        requires
            self@.phase is Stopped || self@.phase is Failed,
        ensures
            ok == sup_succeeded(self@),
    {
        match self.phase {
            SupPhase::Stopped(_) => true,
            _ => false,
        }
    }
}

} // verus!
