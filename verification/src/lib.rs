//! Fan-out core of a chat gateway: a registry of live connections with their
//! outbound queues, an index of channel subscriptions, the dispatcher that
//! relays a published message to every subscriber, the per-connection
//! protocol state machine, and the codec of the wire envelope.

pub mod types;
pub mod protocol;
pub mod json;
pub mod codec;
pub mod registry;
pub mod subscriptions;
pub mod gateway;
pub mod fresh;
pub mod session;
pub mod auth;
pub mod laws;
