//! Error taxonomy of the session core.
//!
//! Configuration errors are fatal at build time; authentication errors
//! surface at build or refresh time; transport errors are retried internally
//! up to a bound and surfaced when the bound is exhausted; send errors are
//! returned per call and never retried automatically.

use vstd::prelude::*;

verus! {

/// A configuration the session can never be built from.
#[derive(Clone, Copy, Debug, PartialEq, Eq, Structural)]
pub enum ConfigError {
    /// The requested topic set was empty; rejected before any network call.
    NoSubscriptionsRequested,
}

/// Failure of token acquisition or refresh.
#[derive(Clone, Copy, Debug, PartialEq, Eq, Structural)]
pub enum AuthError {
    /// The user rejected the grant flow, or no flow was permitted to run.
    AuthDenied,
    /// The grant flow received no response within its bound.
    AuthTimeout,
    /// The granted scopes do not cover the requested ones and policy forbids
    /// re-authentication.
    InsufficientScope,
    /// The access token can no longer be used and no refresh is possible:
    /// the refresh token was rejected, or refreshing is not permitted.
    RefreshExpired,
}

/// Failure of the long-lived transport connection.
#[derive(Clone, Copy, Debug, PartialEq, Eq, Structural)]
pub enum TransportError {
    /// No welcome frame arrived within the handshake bound.
    HandshakeTimeout,
    /// No keepalive (or other) frame arrived within the advertised interval.
    KeepaliveLost,
    /// The low-level connection failed or was reset.
    ConnectionReset,
    /// The bounded reconnect budget was exhausted; the session is dead.
    RetriesExhausted,
}

/// Failure of an outbound command.
#[derive(Clone, Copy, Debug, PartialEq, Eq, Structural)]
pub enum SendError {
    /// There is no active authenticated session to correlate the command to.
    NotAuthenticated,
    /// The remote service declined the command with the given code.
    RemoteRejected(u32),
    /// The session was closed while the command was pending.
    Cancelled,
}

/// Everything that can stop `build` from returning a session.
#[derive(Clone, Copy, Debug, PartialEq, Eq, Structural)]
pub enum BuildError {
    Config(ConfigError),
    Auth(AuthError),
}

} // verus!
