//! The pluggable authentication hook.
//!
//! An authenticator is consulted exactly once per connection, after the
//! backend has been dialed and before any byte is relayed. It decides from
//! connection-level session data alone — the peer seen during the handshake
//! and the backend target — and must not touch the byte streams themselves.
//! The default implementation allows every connection.

use vstd::prelude::*;

verus! {

/// The connection-level data an authenticator may inspect: it sees session
/// metadata, never the relayed bytes.
pub struct SessionInfo {
    /// The address of the authenticated peer, as the handshake reported it.
    pub source: String,
    /// The backend target the connection is about to be relayed to.
    pub target: String,
}

/// An authenticator that could not reach a decision. An error is treated as
/// a denial by the connection handler: the connection closes without relay.
pub struct AuthError {
    /// What went wrong, for the connection log.
    pub message: String,
}

/// Decides whether a connection may be relayed. Implementations may keep
/// state of their own (an allow-list, say) but are consulted exactly once per
/// connection and must decide from the session data alone.
pub trait Authenticator {
    /// `Ok(true)` allows the relay, `Ok(false)` denies it; an error denies it
    /// and is logged as a failure.
    fn authenticate(&self, session: &SessionInfo) -> (decision: Result<bool, AuthError>);
}

/// The default authenticator: every connection is allowed.
pub struct NullAuthenticator;

impl Authenticator for NullAuthenticator {
    /// Always allows.
    fn authenticate(&self, session: &SessionInfo) -> (decision: Result<bool, AuthError>)
        ensures
            decision matches Ok(allowed) && allowed,
    {
        Ok(true)
    }
}

} // verus!
