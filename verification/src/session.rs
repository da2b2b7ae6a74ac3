//! The protocol state machine of one connection.

use vstd::prelude::*;
use crate::codec::{decode, decoded, DecodeError};
use crate::fresh::{fresh_ulid, fresh_uuid};
use crate::json::json_parsed;
use crate::gateway::{disconnected, published, subscribed, Gateway, GatewayModel};
use crate::protocol::{
    hello_frame, make_hello, GatewayPayload, GatewayPayloadView, MessageCreateEvent,
    MessageCreateEventView,
};
use crate::subscriptions::lemma_push_distinct;
use crate::types::{ChannelId, ConnectionId, EventId, UserId};

verus! {

/// Where a connection stands in its life.
#[derive(Clone, Copy, Debug, PartialEq, Eq, Structural)]
pub enum SessionState {
    /// The stream was accepted; the connection is not registered yet.
    Connecting,
    /// Registered and greeted; no identity yet.
    Registered,
    /// An identity was asserted at least once.
    Active,
    /// The stream closed or failed; teardown is due.
    Closing,
    /// Taken out of the registry and of every channel.
    Terminated,
}

/// A read or write failure of the underlying stream.
#[derive(Debug, PartialEq, Eq)]
pub struct TransportError {
    pub detail: String,
}

impl View for TransportError {
    type V = Seq<char>;

    open spec fn view(&self) -> Seq<char> {
        self.detail@
    }
}

/// The state that the driver of one connection keeps.
pub struct Session {
    id: ConnectionId,
    state: SessionState,
    user: Option<UserId>,
    channels: Vec<ChannelId>,
    failure: Option<TransportError>,
}

/// What a session holds.
pub struct SessionModel {
    pub id: ConnectionId,
    pub state: SessionState,
    pub user: Option<UserId>,
    pub channels: Set<ChannelId>,
    pub failure: Option<Seq<char>>,
}

/// The session of a stream that was just accepted under `id`.
pub open spec fn accepted(id: ConnectionId) -> SessionModel {
    SessionModel {
        id,
        state: SessionState::Connecting,
        user: None,
        channels: Set::empty(),
        failure: None,
    }
}

/// Whether a session in `state` still reads its stream.
pub open spec fn is_open(state: SessionState) -> bool {
    state == SessionState::Connecting || state == SessionState::Registered || state
        == SessionState::Active
}

/// Whether a session in `state` acts on inbound frames.
pub open spec fn takes_frames(state: SessionState) -> bool {
    state == SessionState::Registered || state == SessionState::Active
}

/// Registration: a connecting session enters the registry with the greeting
/// as the only frame of its queue. In any other state nothing happens.
pub open spec fn started(session: SessionModel, gateway: GatewayModel) -> (
    SessionModel,
    GatewayModel,
) {
    if session.state == SessionState::Connecting {
        (
            SessionModel { state: SessionState::Registered, ..session },
            GatewayModel {
                queues: gateway.queues.insert(session.id, seq![hello_frame()]),
                memberships: gateway.memberships,
            },
        )
    } else {
        (session, gateway)
    }
}

/// The effect of one inbound frame. `event_id` is the identifier that a
/// published message gets.
pub open spec fn frame_step(
    session: SessionModel,
    gateway: GatewayModel,
    frame: GatewayPayloadView,
    event_id: EventId,
) -> (SessionModel, GatewayModel) {
    if !takes_frames(session.state) {
        (session, gateway)
    } else {
        match frame {
            GatewayPayloadView::Identify { user_id } => (
                SessionModel { user: Some(user_id), state: SessionState::Active, ..session },
                gateway,
            ),
            GatewayPayloadView::Subscribe { channel_id } => (
                SessionModel { channels: session.channels.insert(channel_id), ..session },
                subscribed(gateway, channel_id, session.id),
            ),
            GatewayPayloadView::MessageCreate { channel_id, content } => (
                session,
                published(
                    gateway,
                    MessageCreateEventView {
                        id: event_id,
                        channel_id,
                        author_connection_id: session.id,
                        content,
                    },
                ),
            ),
            _ => (session, gateway),
        }
    }
}

/// The stream closed: an open session is closing.
pub open spec fn closed(session: SessionModel) -> SessionModel {
    if is_open(session.state) {
        SessionModel { state: SessionState::Closing, ..session }
    } else {
        session
    }
}

/// The stream failed: an open session is closing and remembers the failure.
pub open spec fn failed(session: SessionModel, detail: Seq<char>) -> SessionModel {
    if is_open(session.state) {
        SessionModel { state: SessionState::Closing, failure: Some(detail), ..session }
    } else {
        session
    }
}

/// Teardown: the session is terminated and holds no membership.
pub open spec fn terminated(session: SessionModel) -> SessionModel {
    SessionModel { state: SessionState::Terminated, channels: Set::empty(), ..session }
}

fn holds(channels: &Vec<ChannelId>, channel: ChannelId) -> (found: bool)
    ensures
        found == channels@.contains(channel),
{
    let mut i: usize = 0;
    while i < channels.len()
        invariant
            i <= channels@.len(),
            forall|k: int| 0 <= k < i ==> channels@[k] != channel,
        decreases channels@.len() - i,
    {
        if channels[i] == channel {
            return true;
        }
        i += 1;
    }
    false
}

impl View for Session {
    type V = SessionModel;

    closed spec fn view(&self) -> SessionModel {
        SessionModel {
            id: self.id,
            state: self.state,
            user: self.user,
            channels: self.channels@.to_set(),
            failure: match self.failure {
                Some(error) => Some(error@),
                None => None,
            },
        }
    }
}

impl Session {
    /// No channel is held twice.
    pub closed spec fn well_formed(&self) -> bool {
        self.channels@.no_duplicates()
    }

    /// The session of a stream that was just accepted under `id`.
    pub fn new(id: ConnectionId) -> (session: Self)
        ensures
            session.well_formed(),
            session@ == accepted(id),
    {
        let session = Session {
            id,
            state: SessionState::Connecting,
            user: None,
            channels: Vec::new(),
            failure: None,
        };
        assert(session.channels@.to_set() =~= Set::<ChannelId>::empty());
        session
    }

    /// Accepts a stream: draws a fresh identifier, registers the connection
    /// and queues the greeting.
    pub fn accept(gateway: &mut Gateway) -> (session: Self)
        requires
            old(gateway).well_formed(),
        ensures
            final(gateway).well_formed(),
            session.well_formed(),
            (session@, final(gateway)@) == started(accepted(session@.id), old(gateway)@),
    {
        let mut session = Session::new(ConnectionId(fresh_uuid()));
        session.start(gateway);
        session
    }

    /// Registers a connecting session and queues the greeting.
    pub fn start(&mut self, gateway: &mut Gateway)
        requires
            old(self).well_formed(),
            old(gateway).well_formed(),
        ensures
            final(self).well_formed(),
            final(gateway).well_formed(),
            (final(self)@, final(gateway)@) == started(old(self)@, old(gateway)@),
    {
        if self.state == SessionState::Connecting {
            gateway.registry.register(self.id);
            let _ = gateway.registry.enqueue(self.id, make_hello());
            self.state = SessionState::Registered;
            assert(final(gateway)@.queues =~= old(gateway)@.queues.insert(
                self.id,
                seq![hello_frame()],
            )) by {
                assert(Seq::<GatewayPayloadView>::empty().push(hello_frame()) =~= seq![
                    hello_frame(),
                ]);
            }
        }
    }

    /// Acts on one inbound frame; a published message gets the identifier
    /// `event_id`.
    pub fn on_frame(&mut self, gateway: &mut Gateway, frame: GatewayPayload, event_id: EventId)
        requires
            old(self).well_formed(),
            old(gateway).well_formed(),
        ensures
            final(self).well_formed(),
            final(gateway).well_formed(),
            (final(self)@, final(gateway)@) == frame_step(
                old(self)@,
                old(gateway)@,
                frame@,
                event_id,
            ),
    {
        if self.state != SessionState::Registered && self.state != SessionState::Active {
            return ;
        }
        match frame {
            GatewayPayload::Identify { user_id } => {
                self.user = Some(user_id);
                self.state = SessionState::Active;
            },
            GatewayPayload::Subscribe { channel_id } => {
                gateway.subscriptions.subscribe(channel_id, self.id);
                if !holds(&self.channels, channel_id) {
                    proof {
                        lemma_push_distinct(self.channels@, channel_id);
                    }
                    self.channels.push(channel_id);
                } else {
                    assert(self.channels@.to_set() =~= self.channels@.to_set().insert(channel_id));
                }
            },
            GatewayPayload::MessageCreate { channel_id, content } => {
                let event = MessageCreateEvent {
                    id: event_id,
                    channel_id,
                    author_connection_id: self.id,
                    content,
                };
                gateway.publish(&event);
            },
            _ => {},
        }
    }

    /// Acts on one inbound frame, drawing a fresh identifier for a message
    /// that it publishes.
    pub fn receive(&mut self, gateway: &mut Gateway, frame: GatewayPayload)
        requires
            old(self).well_formed(),
            old(gateway).well_formed(),
        ensures
            final(self).well_formed(),
            final(gateway).well_formed(),
            exists|event_id: EventId|
                (final(self)@, final(gateway)@) == #[trigger] frame_step(
                    old(self)@,
                    old(gateway)@,
                    frame@,
                    event_id,
                ),
    {
        let event_id = EventId(fresh_ulid());
        self.on_frame(gateway, frame, event_id);
    }

    /// Acts on one inbound text: decodes it and acts on the frame. A text that
    /// is no frame is answered with the error and otherwise ignored: session
    /// and gateway stay as they are.
    pub fn on_text(&mut self, gateway: &mut Gateway, text: &str) -> (outcome: Result<
        (),
        DecodeError,
    >)
        requires
            old(self).well_formed(),
            old(gateway).well_formed(),
        ensures
            final(self).well_formed(),
            final(gateway).well_formed(),
            match decoded(json_parsed(text@)) {
                Ok(frame) => outcome.is_ok() && exists|event_id: EventId|
                    (final(self)@, final(gateway)@) == #[trigger] frame_step(
                        old(self)@,
                        old(gateway)@,
                        frame,
                        event_id,
                    ),
                Err(error) => outcome == Err::<(), DecodeError>(error) && final(self)@ == old(
                    self,
                )@ && final(gateway)@ == old(gateway)@,
            },
    {
        match decode(text) {
            Ok(frame) => {
                self.receive(gateway, frame);
                Ok(())
            },
            Err(error) => Err(error),
        }
    }

    /// The stream closed or ended.
    pub fn on_close(&mut self)
        ensures
            final(self).well_formed() == old(self).well_formed(),
            final(self)@ == closed(old(self)@),
    {
        if self.state == SessionState::Connecting || self.state == SessionState::Registered
            || self.state == SessionState::Active {
            self.state = SessionState::Closing;
        }
    }

    /// The stream failed with `error`.
    pub fn on_transport_error(&mut self, error: TransportError)
        ensures
            final(self).well_formed() == old(self).well_formed(),
            final(self)@ == failed(old(self)@, error@),
    {
        if self.state == SessionState::Connecting || self.state == SessionState::Registered
            || self.state == SessionState::Active {
            self.state = SessionState::Closing;
            self.failure = Some(error);
        }
    }

    /// Takes the connection out of the registry and out of every channel, and
    /// reports the failure that ended it, if one did.
    pub fn teardown(&mut self, gateway: &mut Gateway) -> (outcome: Result<(), TransportError>)
        requires
            old(self).well_formed(),
            old(gateway).well_formed(),
        ensures
            final(self).well_formed(),
            final(gateway).well_formed(),
            final(self)@ == terminated(old(self)@),
            final(gateway)@ == disconnected(old(gateway)@, old(self)@.id),
            match outcome {
                Ok(_) => old(self)@.failure.is_none(),
                Err(error) => old(self)@.failure == Some(error@),
            },
    {
        gateway.registry.deregister(self.id);
        gateway.subscriptions.unsubscribe_all(self.id);
        self.state = SessionState::Terminated;
        self.channels = Vec::new();
        assert(self.channels@.to_set() =~= Set::<ChannelId>::empty());
        match &self.failure {
            Some(error) => Err(TransportError { detail: error.detail.clone() }),
            None => Ok(()),
        }
    }

    /// The identifier of the connection.
    pub fn id(&self) -> (id: ConnectionId)
        ensures
            id == self@.id,
    {
        self.id
    }

    /// Where the connection stands.
    pub fn state(&self) -> (state: SessionState)
        ensures
            state == self@.state,
    {
        self.state
    }

    /// The identity asserted last, if any was.
    pub fn user(&self) -> (user: Option<UserId>)
        ensures
            user == self@.user,
    {
        self.user
    }

    /// Whether the session subscribed to `channel`.
    pub fn is_member_of(&self, channel: ChannelId) -> (member: bool)
        ensures
            member == self@.channels.contains(channel),
    {
        holds(&self.channels, channel)
    }
}

} // verus!
