//! Opaque identifiers. Each wraps the 128-bit value of the identifier it
//! stands for, so that two identifiers are equal exactly when their values are.

use vstd::prelude::*;

verus! {

/// Identifies one accepted connection for its whole lifetime.
#[derive(Clone, Copy, Debug, PartialEq, Eq, Structural, Hash)]
pub struct ConnectionId(pub u128);

/// Identifies a channel. Any value names a channel that can be subscribed
/// and published to.
#[derive(Clone, Copy, Debug, PartialEq, Eq, Structural, Hash)]
pub struct ChannelId(pub u128);

/// Identifies a user, as asserted by the client or issued at login.
#[derive(Clone, Copy, Debug, PartialEq, Eq, Structural, Hash)]
pub struct UserId(pub u128);

/// A bearer credential issued at login.
#[derive(Clone, Copy, Debug, PartialEq, Eq, Structural, Hash)]
pub struct Token(pub u128);

/// Identifies one published event; larger values were created later.
#[derive(Clone, Copy, Debug, PartialEq, Eq, Structural, Hash)]
pub struct EventId(pub u128);

} // verus!
