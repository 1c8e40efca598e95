//! A TLS-terminating relay, verified at its core.
//!
//! The crate models the logic of a proxy that accepts encrypted client
//! connections, dials a fixed plaintext backend, optionally authenticates the
//! connection, and then forwards bytes in both directions until each side
//! drains. The byte-copy engine, the per-connection lifecycle, and the
//! accept-loop supervisor are all state machines over plain values; the
//! process that runs them performs the socket and TLS work and feeds every
//! outcome back in as an event, so that every decision the relay makes is
//! verified here.

pub mod authenticator;
pub mod connection;
pub mod relay;
pub mod supervisor;
