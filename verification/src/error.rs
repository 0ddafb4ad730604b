//! Error taxonomy of the client.

use vstd::prelude::*;

verus! {

/// Failures surfaced by the client.
///
/// Only `AuthenticationFailed` is fatal to the run loop; every other variant
/// is either absorbed by the reconnect protocol or scoped to a single call.
#[derive(Clone, Copy, Debug, PartialEq, Eq, Structural)]
pub enum PandaError {
    /// The transport or the initial handshake could not be established.
    ConnectFailed,
    /// The server rejected the identify / resume credentials.
    AuthenticationFailed,
    /// A mid-connection I/O failure; treated as a disconnect.
    TransportError,
    /// Two consecutive server rate-limit rejections on one bucket.
    RateLimited,
    /// A frame could not be parsed into a known envelope shape.
    DecodeError,
}

impl PandaError {
    /// Whether this error terminates the run loop instead of triggering a
    /// reconnect.
    pub fn is_fatal(&self) -> (r: bool)
        ensures
            r == (*self is AuthenticationFailed),
    {
        matches!(self, PandaError::AuthenticationFailed)
    }

    /// A short description of the failure.
    pub fn message(&self) -> (r: String)
        ensures
            *self is ConnectFailed ==> r@ == "could not connect to the gateway"@,
            *self is AuthenticationFailed ==> r@ == "authentication failed"@,
            *self is TransportError ==> r@ == "connection error"@,
            *self is RateLimited ==> r@ == "rate limited"@,
            *self is DecodeError ==> r@ == "received a corrupted frame"@,
    {
        match self {
            PandaError::ConnectFailed => "could not connect to the gateway".to_owned(),
            PandaError::AuthenticationFailed => "authentication failed".to_owned(),
            PandaError::TransportError => "connection error".to_owned(),
            PandaError::RateLimited => "rate limited".to_owned(),
            PandaError::DecodeError => "received a corrupted frame".to_owned(),
        }
    }
}

} // verus!
