//! The subscription index: which connections are members of which channel.

use vstd::prelude::*;
use crate::types::{ChannelId, ConnectionId};

verus! {

/// The set of (channel, connection) memberships.
pub struct SubscriptionIndex {
    pairs: Vec<(ChannelId, ConnectionId)>,
}

/// Removing one element of a list without repetitions removes exactly that
/// element from the set of its elements.
proof fn lemma_remove_distinct<T>(s: Seq<T>, i: int)
    requires
        s.no_duplicates(),
        0 <= i < s.len(),
    ensures
        s.remove(i).no_duplicates(),
        s.remove(i).to_set() == s.to_set().remove(s[i]),
{
    let r = s.remove(i);
    assert forall|a: int, b: int| 0 <= a < r.len() && 0 <= b < r.len() && a != b implies r[a]
        != r[b] by {
        let a0 = if a < i { a } else { a + 1 };
        let b0 = if b < i { b } else { b + 1 };
        assert(r[a] == s[a0] && r[b] == s[b0]);
    }
    assert forall|x: T| r.to_set().contains(x) == s.to_set().remove(s[i]).contains(x) by {
        if r.contains(x) {
            let k = choose|k: int| 0 <= k < r.len() && r[k] == x;
            let k0 = if k < i { k } else { k + 1 };
            assert(s[k0] == x);
            assert(s.contains(x));
        }
        if s.contains(x) && x != s[i] {
            let k = choose|k: int| 0 <= k < s.len() && s[k] == x;
            let k1 = if k < i { k } else { k - 1 };
            assert(r[k1] == x);
            assert(r.contains(x));
        }
    }
    assert(r.to_set() =~= s.to_set().remove(s[i]));
}

/// Appending a new element to a list without repetitions adds exactly that
/// element to the set of its elements.
pub proof fn lemma_push_distinct<T>(s: Seq<T>, x: T)
    requires
        s.no_duplicates(),
        !s.contains(x),
    ensures
        s.push(x).no_duplicates(),
        s.push(x).to_set() == s.to_set().insert(x),
{
    let r = s.push(x);
    assert forall|a: int, b: int| 0 <= a < r.len() && 0 <= b < r.len() && a != b implies r[a]
        != r[b] by {
        if a < s.len() {
            assert(s.contains(r[a]));
        }
        if b < s.len() {
            assert(s.contains(r[b]));
        }
    }
    assert forall|y: T| r.to_set().contains(y) == s.to_set().insert(x).contains(y) by {
        if r.contains(y) {
            let k = choose|k: int| 0 <= k < r.len() && r[k] == y;
            if k < s.len() {
                assert(s[k] == y);
                assert(s.contains(y));
            }
        }
        if s.contains(y) {
            let k = choose|k: int| 0 <= k < s.len() && s[k] == y;
            assert(r[k] == y);
            assert(r.contains(y));
        }
        if y == x {
            assert(r[s.len() as int] == y);
            assert(r.contains(y));
        }
    }
    assert(r.to_set() =~= s.to_set().insert(x));
}

/// One of the first `upto` memberships of `pairs` is that of `connection`
/// in `channel`.
spec fn listed(
    pairs: Seq<(ChannelId, ConnectionId)>,
    upto: int,
    channel: ChannelId,
    connection: ConnectionId,
) -> bool {
    exists|k: int| 0 <= k < upto && #[trigger] pairs[k] == (channel, connection)
}

/// The memberships that are left of `memberships` when `connection` leaves
/// every channel.
pub open spec fn without_connection(
    memberships: Set<(ChannelId, ConnectionId)>,
    connection: ConnectionId,
) -> Set<(ChannelId, ConnectionId)> {
    Set::new(
        |pair: (ChannelId, ConnectionId)| memberships.contains(pair) && pair.1 != connection,
    )
}

/// The connections that `memberships` make members of `channel`.
pub open spec fn members_of(
    memberships: Set<(ChannelId, ConnectionId)>,
    channel: ChannelId,
) -> Set<ConnectionId> {
    Set::new(|connection: ConnectionId| memberships.contains((channel, connection)))
}

impl View for SubscriptionIndex {
    type V = Set<(ChannelId, ConnectionId)>;

    closed spec fn view(&self) -> Set<(ChannelId, ConnectionId)> {
        self.pairs@.to_set()
    }
}

impl SubscriptionIndex {
    /// Each membership is held once.
    pub closed spec fn well_formed(&self) -> bool {
        self.pairs@.no_duplicates()
    }

    /// The connections subscribed to `channel`.
    pub open spec fn subscribers(&self, channel: ChannelId) -> Set<ConnectionId> {
        members_of(self@, channel)
    }

    /// An index without memberships.
    pub fn new() -> (index: Self)
        ensures
            index.well_formed(),
            index@ == Set::<(ChannelId, ConnectionId)>::empty(),
    {
        let index = SubscriptionIndex { pairs: Vec::new() };
        assert(index@ =~= Set::<(ChannelId, ConnectionId)>::empty());
        index
    }

    /// Whether `connection` is subscribed to `channel`.
    pub fn is_subscribed(&self, channel: ChannelId, connection: ConnectionId) -> (member: bool)
        ensures
            member == self@.contains((channel, connection)),
    {
        let mut i: usize = 0;
        while i < self.pairs.len()
            invariant
                i <= self.pairs@.len(),
                forall|k: int| 0 <= k < i ==> self.pairs@[k] != (channel, connection),
            decreases self.pairs@.len() - i,
        {
            if self.pairs[i].0 == channel && self.pairs[i].1 == connection {
                assert(self.pairs@[i as int] == (channel, connection));
                assert(self.pairs@.contains((channel, connection)));
                return true;
            }
            i += 1;
        }
        false
    }

    /// Makes `connection` a member of `channel`. A member stays one.
    pub fn subscribe(&mut self, channel: ChannelId, connection: ConnectionId)
        requires
            old(self).well_formed(),
        ensures
            final(self).well_formed(),
            final(self)@ == old(self)@.insert((channel, connection)),
    {
        if self.is_subscribed(channel, connection) {
            assert(self@ =~= old(self)@.insert((channel, connection)));
        } else {
            proof {
                lemma_push_distinct(self.pairs@, (channel, connection));
            }
            self.pairs.push((channel, connection));
        }
    }

    /// Ends every membership of `connection`, in all channels.
    pub fn unsubscribe_all(&mut self, connection: ConnectionId)
        requires
            old(self).well_formed(),
        ensures
            final(self).well_formed(),
            final(self)@ == without_connection(old(self)@, connection),
    {
        let mut i: usize = 0;
        while i < self.pairs.len()
            invariant
                i <= self.pairs@.len(),
                self.pairs@.no_duplicates(),
                forall|k: int| 0 <= k < i ==> (#[trigger] self.pairs@[k]).1 != connection,
                self@.subset_of(old(self)@),
                forall|pair: (ChannelId, ConnectionId)|
                    old(self)@.contains(pair) && pair.1 != connection ==> self@.contains(pair),
            decreases self.pairs@.len() - i,
        {
            if self.pairs[i].1 == connection {
                proof {
                    lemma_remove_distinct(self.pairs@, i as int);
                }
                let ghost before = self.pairs@;
                let _ = self.pairs.remove(i);
                assert forall|k: int| 0 <= k < i implies (#[trigger] self.pairs@[k]).1
                    != connection by {
                    assert(self.pairs@[k] == before[k]);
                }
            } else {
                i += 1;
            }
        }
        proof {
            let kept = without_connection(old(self)@, connection);
            assert forall|pair: (ChannelId, ConnectionId)| self@.contains(pair) == kept.contains(
                pair,
            ) by {
                if self@.contains(pair) {
                    let k = choose|k: int| 0 <= k < self.pairs@.len() && self.pairs@[k] == pair;
                    assert(self.pairs@[k].1 != connection);
                    assert(old(self)@.contains(pair));
                }
            }
            assert(self@ =~= kept);
        }
    }

    /// The members of `channel`, each once.
    pub fn subscribers_of(&self, channel: ChannelId) -> (members: Vec<ConnectionId>)
        requires
            self.well_formed(),
        ensures
            members@.no_duplicates(),
            members@.to_set() == self.subscribers(channel),
    {
        let mut members: Vec<ConnectionId> = Vec::new();
        let mut i: usize = 0;
        while i < self.pairs.len()
            invariant
                i <= self.pairs@.len(),
                self.pairs@.no_duplicates(),
                members@.no_duplicates(),
                forall|k: int|
                    0 <= k < i && (#[trigger] self.pairs@[k]).0 == channel ==> members@.contains(
                        self.pairs@[k].1,
                    ),
                forall|m: int|
                    0 <= m < members@.len() ==> listed(
                        self.pairs@,
                        i as int,
                        channel,
                        #[trigger] members@[m],
                    ),
            decreases self.pairs@.len() - i,
        {
            if self.pairs[i].0 == channel {
                let connection = self.pairs[i].1;
                let ghost before = members@;
                proof {
                    if before.contains(connection) {
                        let m = choose|m: int| 0 <= m < before.len() && before[m] == connection;
                        assert(listed(self.pairs@, i as int, channel, before[m]));
                        let k = choose|k: int|
                            0 <= k < i && #[trigger] self.pairs@[k] == (channel, before[m]);
                        assert(self.pairs@[k] == self.pairs@[i as int]);
                    }
                    lemma_push_distinct(before, connection);
                }
                members.push(connection);
                proof {
                    assert forall|k: int|
                        0 <= k < i + 1 && (#[trigger] self.pairs@[k]).0
                            == channel implies members@.contains(self.pairs@[k].1) by {
                        if k < i {
                            assert(before.contains(self.pairs@[k].1));
                            let m = choose|m: int|
                                0 <= m < before.len() && before[m] == self.pairs@[k].1;
                            assert(members@[m] == self.pairs@[k].1);
                        } else {
                            assert(members@[before.len() as int] == connection);
                        }
                    }
                    assert forall|m: int| 0 <= m < members@.len() implies listed(
                        self.pairs@,
                        i + 1,
                        channel,
                        #[trigger] members@[m],
                    ) by {
                        if m < before.len() {
                            assert(members@[m] == before[m]);
                            assert(listed(self.pairs@, i as int, channel, before[m]));
                            let k = choose|k: int|
                                0 <= k < i && #[trigger] self.pairs@[k] == (channel, before[m]);
                            assert(0 <= k < i + 1 && self.pairs@[k] == (channel, members@[m]));
                        } else {
                            assert(self.pairs@[i as int] == (channel, members@[m]));
                        }
                    }
                }
            }
            i += 1;
        }
        proof {
            assert forall|c: ConnectionId| members@.to_set().contains(c) == self.subscribers(
                channel,
            ).contains(c) by {
                if members@.contains(c) {
                    let m = choose|m: int| 0 <= m < members@.len() && members@[m] == c;
                    assert(listed(self.pairs@, i as int, channel, members@[m]));
                    let k = choose|k: int|
                        0 <= k < i && #[trigger] self.pairs@[k] == (channel, members@[m]);
                    assert(self.pairs@.contains((channel, c)));
                }
                if self.pairs@.contains((channel, c)) {
                    let k = choose|k: int|
                        0 <= k < self.pairs@.len() && self.pairs@[k] == (channel, c);
                    assert(self.pairs@[k].0 == channel);
                }
            }
            assert(members@.to_set() =~= self.subscribers(channel));
        }
        members
    }
}

} // verus!
