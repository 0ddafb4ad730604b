//! Client core for a real-time message gateway: session bookkeeping, the
//! connection-lifecycle state machine (identify / resume / heartbeat), and the
//! per-bucket rate-limit admission policy used by the REST transport.
//!
//! Everything here is pure logic over plain values; the asynchronous transport
//! that feeds events in and carries commands out lives outside this crate.

pub mod config;
pub mod coordinator;
pub mod error;
pub mod events;
pub mod heartbeat;
pub mod ratelimit;
pub mod session;
pub mod text;

pub use error::PandaError;
pub use session::Session;
