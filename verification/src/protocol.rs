//! The frames of the gateway protocol and their mathematical views.

use vstd::prelude::*;
use crate::types::{ChannelId, ConnectionId, EventId, UserId};

verus! {

/// A message published to a channel, as it is fanned out to subscribers.
#[derive(Debug, PartialEq, Eq)]
pub struct MessageCreateEvent {
    pub id: EventId,
    pub channel_id: ChannelId,
    pub author_connection_id: ConnectionId,
    pub content: String,
}

/// What a `MessageCreateEvent` holds, with its text as a sequence of characters.
pub struct MessageCreateEventView {
    pub id: EventId,
    pub channel_id: ChannelId,
    pub author_connection_id: ConnectionId,
    pub content: Seq<char>,
}

impl View for MessageCreateEvent {
    type V = MessageCreateEventView;

    open spec fn view(&self) -> MessageCreateEventView {
        MessageCreateEventView {
            id: self.id,
            channel_id: self.channel_id,
            author_connection_id: self.author_connection_id,
            content: self.content@,
        }
    }
}

impl Clone for MessageCreateEvent {
    fn clone(&self) -> (copy: Self)
        ensures
            copy@ == self@,
    {
        MessageCreateEvent {
            id: self.id,
            channel_id: self.channel_id,
            author_connection_id: self.author_connection_id,
            content: self.content.clone(),
        }
    }
}

/// One frame of the protocol: the envelope's discriminant with its payload.
#[derive(Debug, PartialEq, Eq)]
pub enum GatewayPayload {
    /// Server to client, first frame after registration.
    Hello { heartbeat_interval_ms: u64 },
    /// Client to server: associates the connection with a user.
    Identify { user_id: UserId },
    /// Client to server: asks for membership in a channel.
    Subscribe { channel_id: ChannelId },
    /// Client to server: asks for a message to be published to a channel.
    MessageCreate { channel_id: ChannelId, content: String },
    /// Server to client: a pushed event under its type tag.
    Dispatch { t: String, d: MessageCreateEvent },
}

/// What a `GatewayPayload` holds, with its texts as sequences of characters.
pub enum GatewayPayloadView {
    Hello { heartbeat_interval_ms: u64 },
    Identify { user_id: UserId },
    Subscribe { channel_id: ChannelId },
    MessageCreate { channel_id: ChannelId, content: Seq<char> },
    Dispatch { t: Seq<char>, d: MessageCreateEventView },
}

impl View for GatewayPayload {
    type V = GatewayPayloadView;

    open spec fn view(&self) -> GatewayPayloadView {
        match *self {
            GatewayPayload::Hello { heartbeat_interval_ms } => GatewayPayloadView::Hello {
                heartbeat_interval_ms,
            },
            GatewayPayload::Identify { user_id } => GatewayPayloadView::Identify { user_id },
            GatewayPayload::Subscribe { channel_id } => GatewayPayloadView::Subscribe {
                channel_id,
            },
            GatewayPayload::MessageCreate { channel_id, content } => {
                GatewayPayloadView::MessageCreate { channel_id, content: content@ }
            },
            GatewayPayload::Dispatch { t, d } => GatewayPayloadView::Dispatch { t: t@, d: d@ },
        }
    }
}

impl Clone for GatewayPayload {
    fn clone(&self) -> (copy: Self)
        ensures
            copy@ == self@,
    {
        match self {
            GatewayPayload::Hello { heartbeat_interval_ms } => GatewayPayload::Hello {
                heartbeat_interval_ms: *heartbeat_interval_ms,
            },
            GatewayPayload::Identify { user_id } => GatewayPayload::Identify { user_id: *user_id },
            GatewayPayload::Subscribe { channel_id } => GatewayPayload::Subscribe {
                channel_id: *channel_id,
            },
            GatewayPayload::MessageCreate { channel_id, content } => {
                GatewayPayload::MessageCreate { channel_id: *channel_id, content: content.clone() }
            },
            GatewayPayload::Dispatch { t, d } => GatewayPayload::Dispatch {
                t: t.clone(),
                d: d.clone(),
            },
        }
    }
}

/// The keep-alive cadence, in milliseconds, that the greeting announces.
pub const HEARTBEAT_INTERVAL_MS: u64 = 25000;

/// The tag under which a published message is pushed to subscribers.
pub open spec fn message_create_tag() -> Seq<char> {
    "MESSAGE_CREATE"@
}

/// The greeting frame.
pub open spec fn hello_frame() -> GatewayPayloadView {
    GatewayPayloadView::Hello { heartbeat_interval_ms: HEARTBEAT_INTERVAL_MS }
}

/// The frame that carries `event` to a subscriber.
pub open spec fn dispatch_frame(event: MessageCreateEventView) -> GatewayPayloadView {
    GatewayPayloadView::Dispatch { t: message_create_tag(), d: event }
}

/// The views of the frames of a queue, in order.
pub open spec fn frames_view(frames: Seq<GatewayPayload>) -> Seq<GatewayPayloadView> {
    frames.map_values(|f: GatewayPayload| f@)
}

/// Builds the greeting frame.
pub fn make_hello() -> (frame: GatewayPayload)
    ensures
        frame@ == hello_frame(),
{
    GatewayPayload::Hello { heartbeat_interval_ms: HEARTBEAT_INTERVAL_MS }
}

/// Wraps `event` in the frame that carries it to a subscriber.
pub fn make_dispatch(event: MessageCreateEvent) -> (frame: GatewayPayload)
    ensures
        frame@ == dispatch_frame(event@),
{
    GatewayPayload::Dispatch { t: "MESSAGE_CREATE".to_string(), d: event }
}

} // verus!
