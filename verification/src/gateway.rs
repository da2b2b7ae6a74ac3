//! The shared state of the gateway and the dispatcher that fans a published
//! message out to the subscribers of its channel.

use vstd::prelude::*;
use crate::protocol::{
    dispatch_frame, make_dispatch, GatewayPayloadView, MessageCreateEvent, MessageCreateEventView,
};
use crate::registry::Registry;
use crate::subscriptions::{members_of, without_connection, SubscriptionIndex};
use crate::types::{ChannelId, ConnectionId};

verus! {

/// The registry of live connections together with the subscription index.
pub struct Gateway {
    pub registry: Registry,
    pub subscriptions: SubscriptionIndex,
}

/// What a gateway holds: the outbound queue of each live connection, oldest
/// frame first, and the set of memberships.
pub struct GatewayModel {
    pub queues: Map<ConnectionId, Seq<GatewayPayloadView>>,
    pub memberships: Set<(ChannelId, ConnectionId)>,
}

/// The queues after `event` was fanned out to `targets`: each live target
/// has the frame that carries the event appended, once; every other queue is
/// as before, and no queue appears or disappears.
pub open spec fn fan_out(
    queues: Map<ConnectionId, Seq<GatewayPayloadView>>,
    targets: Set<ConnectionId>,
    event: MessageCreateEventView,
) -> Map<ConnectionId, Seq<GatewayPayloadView>> {
    Map::new(
        |id: ConnectionId| queues.contains_key(id),
        |id: ConnectionId|
            if targets.contains(id) {
                queues[id].push(dispatch_frame(event))
            } else {
                queues[id]
            },
    )
}

/// The gateway after `event` was published: fanned out to the members of
/// its channel, memberships untouched.
pub open spec fn published(gateway: GatewayModel, event: MessageCreateEventView) -> GatewayModel {
    GatewayModel {
        queues: fan_out(gateway.queues, members_of(gateway.memberships, event.channel_id), event),
        memberships: gateway.memberships,
    }
}

/// The gateway after `connection` subscribed to `channel`.
pub open spec fn subscribed(
    gateway: GatewayModel,
    channel: ChannelId,
    connection: ConnectionId,
) -> GatewayModel {
    GatewayModel {
        queues: gateway.queues,
        memberships: gateway.memberships.insert((channel, connection)),
    }
}

/// The gateway after `connection` was taken out of the registry and out of
/// every channel.
pub open spec fn disconnected(gateway: GatewayModel, connection: ConnectionId) -> GatewayModel {
    GatewayModel {
        queues: gateway.queues.remove(connection),
        memberships: without_connection(gateway.memberships, connection),
    }
}

impl View for Gateway {
    type V = GatewayModel;

    open spec fn view(&self) -> GatewayModel {
        GatewayModel { queues: self.registry@, memberships: self.subscriptions@ }
    }
}

impl Gateway {
    /// Both parts hold their invariants.
    pub open spec fn well_formed(&self) -> bool {
        self.registry.well_formed() && self.subscriptions.well_formed()
    }

    /// A gateway without connections or memberships.
    pub fn new() -> (gateway: Self)
        ensures
            gateway.well_formed(),
            gateway@.queues == Map::<ConnectionId, Seq<GatewayPayloadView>>::empty(),
            gateway@.memberships == Set::<(ChannelId, ConnectionId)>::empty(),
    {
        Gateway { registry: Registry::new(), subscriptions: SubscriptionIndex::new() }
    }

    /// Fans `event` out: every live member of the event's channel gets one
    /// frame that carries it, at the end of its queue. Members that are no
    /// longer registered are passed over.
    pub fn publish(&mut self, event: &MessageCreateEvent)
        requires
            old(self).well_formed(),
        ensures
            final(self).well_formed(),
            final(self)@ == published(old(self)@, event@),
    {
        let targets = self.subscriptions.subscribers_of(event.channel_id);
        let ghost before = self.registry@;
        let mut k: usize = 0;
        assert(self.registry@ =~= fan_out(before, targets@.take(0).to_set(), event@));
        while k < targets.len()
            invariant
                k <= targets@.len(),
                targets@.no_duplicates(),
                self.registry.well_formed(),
                self.subscriptions == old(self).subscriptions,
                self.registry@ == fan_out(before, targets@.take(k as int).to_set(), event@),
            decreases targets@.len() - k,
        {
            let target = targets[k];
            let frame = make_dispatch(event.clone());
            let ghost reached = self.registry@;
            let _ = self.registry.enqueue(target, frame);
            proof {
                let done = targets@.take(k as int);
                let next = targets@.take(k + 1);
                assert(!done.contains(target)) by {
                    if done.contains(target) {
                        let j = choose|j: int| 0 <= j < done.len() && done[j] == target;
                        assert(targets@[j] == targets@[k as int]);
                    }
                }
                assert forall|id: ConnectionId| next.contains(id) == (done.contains(id) || id
                    == target) by {
                    if next.contains(id) {
                        let j = choose|j: int| 0 <= j < next.len() && next[j] == id;
                        if j < k {
                            assert(done[j] == id);
                        }
                    }
                    if done.contains(id) {
                        let j = choose|j: int| 0 <= j < done.len() && done[j] == id;
                        assert(next[j] == id);
                    }
                    if id == target {
                        assert(next[k as int] == id);
                    }
                }
                assert(self.registry@ =~= fan_out(before, next.to_set(), event@));
            }
            k += 1;
        }
        proof {
            assert(targets@.take(k as int) == targets@);
            assert(targets@.to_set() == members_of(old(self)@.memberships, event.channel_id));
            assert(self@.queues == published(old(self)@, event@).queues);
        }
    }
}

} // verus!
