//! What holds of the gateway across several operations, stated over the
//! models that the operations' contracts use.

use vstd::prelude::*;
use crate::gateway::{disconnected, published, subscribed, GatewayModel};
use crate::protocol::{dispatch_frame, hello_frame, GatewayPayloadView, MessageCreateEventView};
use crate::session::{
    accepted, frame_step, started, takes_frames, terminated, SessionModel, SessionState,
};
use crate::subscriptions::members_of;
use crate::types::{ChannelId, ConnectionId, EventId};

verus! {

/// The gateway after `connection` subscribed to `channel` `times` times.
pub open spec fn subscribed_times(
    gateway: GatewayModel,
    channel: ChannelId,
    connection: ConnectionId,
    times: nat,
) -> GatewayModel
    decreases times,
{
    if times == 0 {
        gateway
    } else {
        subscribed(subscribed_times(gateway, channel, connection, (times - 1) as nat), channel, connection)
    }
}

/// Right after it was accepted, a connection is registered, under its own
/// identifier only, and the greeting is the one frame in its queue.
pub proof fn lemma_accepted_is_greeted(id: ConnectionId, gateway: GatewayModel)
    ensures
        started(accepted(id), gateway).0.state == SessionState::Registered,
        started(accepted(id), gateway).1.queues.dom() == gateway.queues.dom().insert(id),
        started(accepted(id), gateway).1.queues[id] == seq![hello_frame()],
        started(accepted(id), gateway).1.queues[id][0] == hello_frame(),
        forall|other: ConnectionId|
            other != id && gateway.queues.contains_key(other) ==> started(
                accepted(id),
                gateway,
            ).1.queues[other] == gateway.queues[other],
{
    assert(started(accepted(id), gateway).1.queues.dom() =~= gateway.queues.dom().insert(id));
}

/// No inbound frame, of whatever session, changes which frame is first in a
/// queue that is not empty: what was queued first is delivered first.
pub proof fn lemma_frames_keep_the_front(
    session: SessionModel,
    gateway: GatewayModel,
    frame: GatewayPayloadView,
    event_id: EventId,
    id: ConnectionId,
)
    requires
        gateway.queues.contains_key(id),
        gateway.queues[id].len() > 0,
    ensures
        frame_step(session, gateway, frame, event_id).1.queues.contains_key(id),
        frame_step(session, gateway, frame, event_id).1.queues[id].len() > 0,
        frame_step(session, gateway, frame, event_id).1.queues[id][0] == gateway.queues[id][0],
{
}

/// After teardown the registry holds no entry for the connection, and every
/// other entry is as before.
pub proof fn lemma_disconnected_is_absent(gateway: GatewayModel, id: ConnectionId)
    ensures
        !disconnected(gateway, id).queues.contains_key(id),
        disconnected(gateway, id).queues.dom() == gateway.queues.dom().remove(id),
        forall|other: ConnectionId|
            other != id && gateway.queues.contains_key(other) ==> disconnected(
                gateway,
                id,
            ).queues[other] == gateway.queues[other],
{
    assert(disconnected(gateway, id).queues.dom() =~= gateway.queues.dom().remove(id));
}

/// Subscribing once more changes nothing.
pub proof fn lemma_subscribe_twice(
    gateway: GatewayModel,
    channel: ChannelId,
    connection: ConnectionId,
)
    ensures
        subscribed(subscribed(gateway, channel, connection), channel, connection) == subscribed(
            gateway,
            channel,
            connection,
        ),
{
    let pair = (channel, connection);
    assert(gateway.memberships.insert(pair).insert(pair) =~= gateway.memberships.insert(pair));
}

/// Subscribing any number of times, at least once, is subscribing once.
pub proof fn lemma_subscribe_idempotent(
    gateway: GatewayModel,
    channel: ChannelId,
    connection: ConnectionId,
    times: nat,
)
    requires
        times >= 1,
    ensures
        subscribed_times(gateway, channel, connection, times) == subscribed(
            gateway,
            channel,
            connection,
        ),
    decreases times,
{
    if times == 1 {
        assert(subscribed_times(gateway, channel, connection, 0) == gateway);
    } else {
        lemma_subscribe_idempotent(gateway, channel, connection, (times - 1) as nat);
        lemma_subscribe_twice(gateway, channel, connection);
    }
}

/// A publish gives every registered member of the channel exactly one more
/// frame, the one that carries the event, and leaves every other queue as it
/// was. It registers nobody and changes no membership.
pub proof fn lemma_publish_reaches_members_once(
    gateway: GatewayModel,
    event: MessageCreateEventView,
    id: ConnectionId,
)
    ensures
        published(gateway, event).memberships == gateway.memberships,
        published(gateway, event).queues.contains_key(id) == gateway.queues.contains_key(id),
        gateway.queues.contains_key(id) && gateway.memberships.contains((event.channel_id, id))
            ==> published(gateway, event).queues[id] == gateway.queues[id].push(
            dispatch_frame(event),
        ),
        gateway.queues.contains_key(id) && !gateway.memberships.contains((event.channel_id, id))
            ==> published(gateway, event).queues[id] == gateway.queues[id],
{
}

/// Once a connection is torn down it is a member of no channel, and no later
/// publish, to whatever channel, makes a queue for it.
pub proof fn lemma_no_delivery_after_disconnect(
    gateway: GatewayModel,
    id: ConnectionId,
    event: MessageCreateEventView,
    channel: ChannelId,
)
    ensures
        !members_of(disconnected(gateway, id).memberships, channel).contains(id),
        !published(disconnected(gateway, id), event).queues.contains_key(id),
        published(disconnected(gateway, id), event).queues.dom() == gateway.queues.dom().remove(
            id,
        ),
{
    assert(published(disconnected(gateway, id), event).queues.dom()
        =~= gateway.queues.dom().remove(id));
}

/// Every member of every channel is a registered connection: fan-out has no
/// target that was torn down.
pub open spec fn no_dangling_member(gateway: GatewayModel) -> bool {
    forall|channel: ChannelId, connection: ConnectionId| #[trigger]
        gateway.memberships.contains((channel, connection)) ==> gateway.queues.contains_key(
            connection,
        )
}

/// A session that acts on frames is registered.
pub open spec fn registered_while_open(session: SessionModel, gateway: GatewayModel) -> bool {
    takes_frames(session.state) ==> gateway.queues.contains_key(session.id)
}

/// Registration leaves no member dangling and registers the session.
pub proof fn lemma_start_keeps_members_registered(session: SessionModel, gateway: GatewayModel)
    requires
        no_dangling_member(gateway),
        registered_while_open(session, gateway),
    ensures
        no_dangling_member(started(session, gateway).1),
        registered_while_open(started(session, gateway).0, started(session, gateway).1),
{
}

/// No inbound frame of a registered session leaves a member dangling, and
/// the session stays registered.
pub proof fn lemma_frame_keeps_members_registered(
    session: SessionModel,
    gateway: GatewayModel,
    frame: GatewayPayloadView,
    event_id: EventId,
)
    requires
        no_dangling_member(gateway),
        registered_while_open(session, gateway),
    ensures
        no_dangling_member(frame_step(session, gateway, frame, event_id).1),
        registered_while_open(
            frame_step(session, gateway, frame, event_id).0,
            frame_step(session, gateway, frame, event_id).1,
        ),
        frame_step(session, gateway, frame, event_id).1.queues.dom() == gateway.queues.dom(),
{
    let after = frame_step(session, gateway, frame, event_id).1;
    assert(after.queues.dom() =~= gateway.queues.dom());
    assert forall|channel: ChannelId, connection: ConnectionId| #[trigger]
        after.memberships.contains((channel, connection)) implies after.queues.contains_key(
        connection,
    ) by {
        if !gateway.memberships.contains((channel, connection)) {
            assert(connection == session.id);
        }
    }
}

/// Teardown leaves no member dangling: the memberships of a connection go
/// no later than its registry entry.
pub proof fn lemma_teardown_keeps_members_registered(session: SessionModel, gateway: GatewayModel)
    requires
        no_dangling_member(gateway),
    ensures
        no_dangling_member(disconnected(gateway, session.id)),
        registered_while_open(terminated(session), disconnected(gateway, session.id)),
{
}

/// Two publishes reach a member in the order in which they were made.
pub proof fn lemma_publish_keeps_order(
    gateway: GatewayModel,
    first: MessageCreateEventView,
    second: MessageCreateEventView,
    id: ConnectionId,
)
    requires
        gateway.queues.contains_key(id),
        gateway.memberships.contains((first.channel_id, id)),
        gateway.memberships.contains((second.channel_id, id)),
    ensures
        published(published(gateway, first), second).queues[id] == gateway.queues[id].push(
            dispatch_frame(first),
        ).push(dispatch_frame(second)),
{
}

} // verus!
