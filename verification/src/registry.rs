//! The connection registry: which connections are live, and what each still
//! has to be sent.

use vstd::prelude::*;
use crate::protocol::{frames_view, GatewayPayload, GatewayPayloadView};
use crate::types::ConnectionId;

verus! {

/// A registered connection: its identifier and its outbound queue, oldest
/// frame first.
pub struct Connection {
    pub id: ConnectionId,
    pub outbound: Vec<GatewayPayload>,
}

/// Maps each live connection to its outbound queue.
pub struct Registry {
    entries: Vec<Connection>,
}

/// No identifier occurs twice among `entries`.
pub open spec fn distinct_ids(entries: Seq<Connection>) -> bool {
    forall|i: int, j: int| 0 <= i < j < entries.len() ==> entries[i].id != entries[j].id
}

/// Some entry of `entries` has the identifier `id`.
pub open spec fn has_id(entries: Seq<Connection>, id: ConnectionId) -> bool {
    exists|i: int| 0 <= i < entries.len() && #[trigger] entries[i].id == id
}

/// The position of an entry with the identifier `id`.
pub open spec fn index_of(entries: Seq<Connection>, id: ConnectionId) -> int {
    choose|i: int| 0 <= i < entries.len() && #[trigger] entries[i].id == id
}

/// The registry that `entries` stand for.
pub open spec fn entries_model(entries: Seq<Connection>) -> Map<
    ConnectionId,
    Seq<GatewayPayloadView>,
> {
    Map::new(
        |id: ConnectionId| has_id(entries, id),
        |id: ConnectionId| frames_view(entries[index_of(entries, id)].outbound@),
    )
}

/// With distinct identifiers, the entry at `i` is the one the model shows for
/// its identifier.
proof fn lemma_entry_at(entries: Seq<Connection>, i: int)
    requires
        distinct_ids(entries),
        0 <= i < entries.len(),
    ensures
        has_id(entries, entries[i].id),
        index_of(entries, entries[i].id) == i,
        entries_model(entries)[entries[i].id] == frames_view(entries[i].outbound@),
{
    let id = entries[i].id;
    assert(entries[i].id == id);
    let j = index_of(entries, id);
    assert(0 <= j < entries.len() && entries[j].id == id);
    if j < i {
        assert(entries[j].id != entries[i].id);
    } else if i < j {
        assert(entries[i].id != entries[j].id);
    }
}

/// Appending a frame to a queue appends its view.
pub proof fn lemma_frames_view_push(frames: Seq<GatewayPayload>, frame: GatewayPayload)
    ensures
        frames_view(frames.push(frame)) == frames_view(frames).push(frame@),
{
    assert(frames_view(frames.push(frame)) =~= frames_view(frames).push(frame@));
}

impl View for Registry {
    type V = Map<ConnectionId, Seq<GatewayPayloadView>>;

    closed spec fn view(&self) -> Map<ConnectionId, Seq<GatewayPayloadView>> {
        entries_model(self.entries@)
    }
}

impl Registry {
    /// The registry holds at most one entry for each identifier.
    pub closed spec fn well_formed(&self) -> bool {
        distinct_ids(self.entries@)
    }

    /// A registry without connections.
    pub fn new() -> (registry: Self)
        ensures
            registry.well_formed(),
            registry@ == Map::<ConnectionId, Seq<GatewayPayloadView>>::empty(),
    {
        let registry = Registry { entries: Vec::new() };
        assert(registry@ =~= Map::<ConnectionId, Seq<GatewayPayloadView>>::empty());
        registry
    }

    fn position(&self, id: ConnectionId) -> (found: Option<usize>)
        requires
            self.well_formed(),
        ensures
            match found {
                Some(i) => i < self.entries@.len() && self.entries@[i as int].id == id
                    && self@.contains_key(id),
                None => !self@.contains_key(id),
            },
    {
        let mut i: usize = 0;
        while i < self.entries.len()
            invariant
                i <= self.entries@.len(),
                distinct_ids(self.entries@),
                forall|k: int| 0 <= k < i ==> self.entries@[k].id != id,
            decreases self.entries@.len() - i,
        {
            if self.entries[i].id == id {
                proof {
                    lemma_entry_at(self.entries@, i as int);
                }
                return Some(i);
            }
            i += 1;
        }
        None
    }

    /// Whether `id` is registered.
    pub fn contains(&self, id: ConnectionId) -> (present: bool)
        requires
            self.well_formed(),
        ensures
            present == self@.contains_key(id),
    {
        self.position(id).is_some()
    }

    /// The entry of `id`, if it is registered.
    pub fn lookup(&self, id: ConnectionId) -> (found: Option<&Connection>)
        requires
            self.well_formed(),
        ensures
            found.is_some() == self@.contains_key(id),
            found matches Some(c) ==> c.id == id && frames_view(c.outbound@) == self@[id],
    {
        match self.position(id) {
            Some(i) => {
                proof {
                    lemma_entry_at(self.entries@, i as int);
                }
                Some(&self.entries[i])
            },
            None => None,
        }
    }

    /// Registers `id` with an empty outbound queue, whatever was there before.
    pub fn register(&mut self, id: ConnectionId)
        requires
            old(self).well_formed(),
        ensures
            final(self).well_formed(),
            final(self)@ == old(self)@.insert(id, Seq::<GatewayPayloadView>::empty()),
    {
        self.deregister(id);
        let ghost mid = self@;
        let entry = Connection { id, outbound: Vec::new() };
        assert(frames_view(entry.outbound@) =~= Seq::<GatewayPayloadView>::empty());
        self.put(entry);
        assert(mid.insert(id, Seq::<GatewayPayloadView>::empty()) =~= old(self)@.insert(
            id,
            Seq::<GatewayPayloadView>::empty(),
        ));
    }

    fn put(&mut self, entry: Connection)
        requires
            old(self).well_formed(),
            !old(self)@.contains_key(entry.id),
        ensures
            final(self).well_formed(),
            final(self)@ == old(self)@.insert(entry.id, frames_view(entry.outbound@)),
    {
        proof {
            lemma_pushed(self.entries@, entry);
        }
        self.entries.push(entry);
    }

    fn take(&mut self, i: usize) -> (entry: Connection)
        requires
            old(self).well_formed(),
            i < old(self).entries@.len(),
        ensures
            final(self).well_formed(),
            entry == old(self).entries@[i as int],
            old(self)@.contains_key(entry.id),
            old(self)@[entry.id] == frames_view(entry.outbound@),
            final(self)@ == old(self)@.remove(entry.id),
    {
        proof {
            lemma_removed(self.entries@, i as int);
            lemma_entry_at(self.entries@, i as int);
        }
        self.entries.remove(i)
    }

    /// Appends `frame` to the outbound queue of `id`, if `id` is registered.
    /// Says whether it was.
    pub fn enqueue(&mut self, id: ConnectionId, frame: GatewayPayload) -> (delivered: bool)
        requires
            old(self).well_formed(),
        ensures
            final(self).well_formed(),
            delivered == old(self)@.contains_key(id),
            delivered ==> final(self)@ == old(self)@.insert(id, old(self)@[id].push(frame@)),
            !delivered ==> final(self)@ == old(self)@,
    {
        match self.position(id) {
            Some(i) => {
                let mut entry = self.take(i);
                proof {
                    lemma_frames_view_push(entry.outbound@, frame);
                }
                entry.outbound.push(frame);
                self.put(entry);
                assert(self@ =~= old(self)@.insert(id, old(self)@[id].push(frame@)));
                true
            },
            None => false,
        }
    }

    /// Takes the oldest frame out of the outbound queue of `id`. There is none
    /// where `id` is not registered or its queue is empty.
    pub fn dequeue(&mut self, id: ConnectionId) -> (frame: Option<GatewayPayload>)
        requires
            old(self).well_formed(),
        ensures
            final(self).well_formed(),
            frame.is_some() == (old(self)@.contains_key(id) && old(self)@[id].len() > 0),
            frame matches Some(f) ==> f@ == old(self)@[id][0] && final(self)@ == old(self)@.insert(
                id,
                old(self)@[id].drop_first(),
            ),
            frame.is_none() ==> final(self)@ == old(self)@,
    {
        match self.position(id) {
            Some(i) => {
                proof {
                    lemma_entry_at(self.entries@, i as int);
                }
                if self.entries[i].outbound.len() == 0 {
                    return None;
                }
                let mut entry = self.take(i);
                let ghost queue = entry.outbound@;
                let frame = entry.outbound.remove(0);
                assert(frames_view(entry.outbound@) =~= frames_view(queue).drop_first());
                self.put(entry);
                assert(self@ =~= old(self)@.insert(id, old(self)@[id].drop_first()));
                Some(frame)
            },
            None => None,
        }
    }

    /// The number of registered connections.
    pub fn len(&self) -> (count: usize)
        requires
            self.well_formed(),
        ensures
            self@.dom().finite(),
            count == self@.dom().len(),
    {
        proof {
            lemma_model_size(self.entries@);
        }
        self.entries.len()
    }

    /// Removes `id` if it is registered; does nothing otherwise.
    pub fn deregister(&mut self, id: ConnectionId)
        requires
            old(self).well_formed(),
        ensures
            final(self).well_formed(),
            final(self)@ == old(self)@.remove(id),
    {
        match self.position(id) {
            Some(i) => {
                let _ = self.take(i);
            },
            None => {
                assert(self@ =~= old(self)@.remove(id));
            },
        }
    }
}

/// Taking the entry at `i` out of a list with distinct identifiers removes
/// its identifier from the model and leaves every other entry as it was.
proof fn lemma_removed(before: Seq<Connection>, i: int)
    requires
        distinct_ids(before),
        0 <= i < before.len(),
    ensures
        distinct_ids(before.remove(i)),
        entries_model(before.remove(i)) == entries_model(before).remove(before[i].id),
{
    let after = before.remove(i);
    let id = before[i].id;
    assert forall|a: int, b: int| 0 <= a < b < after.len() implies after[a].id != after[b].id by {
        let a0 = if a < i { a } else { a + 1 };
        let b0 = if b < i { b } else { b + 1 };
        assert(after[a] == before[a0] && after[b] == before[b0]);
    }
    assert(!has_id(after, id)) by {
        if has_id(after, id) {
            let k = index_of(after, id);
            let k0 = if k < i { k } else { k + 1 };
            assert(after[k] == before[k0]);
            if k0 < i {
                assert(before[k0].id != before[i].id);
            } else {
                assert(before[i].id != before[k0].id);
            }
        }
    }
    assert forall|other: ConnectionId| other != id implies (has_id(after, other) == has_id(
        before,
        other,
    )) && (has_id(before, other) ==> entries_model(after)[other] == entries_model(
        before,
    )[other]) by {
        if has_id(before, other) {
            let k = index_of(before, other);
            let k1 = if k < i { k } else { k - 1 };
            assert(after[k1] == before[k]);
            assert(after[k1].id == other);
            lemma_entry_at(before, k);
            lemma_entry_at(after, k1);
        }
        if has_id(after, other) {
            let k = index_of(after, other);
            let k0 = if k < i { k } else { k + 1 };
            assert(before[k0].id == other);
        }
    }
    assert(entries_model(after) =~= entries_model(before).remove(id));
}

/// Appending an entry whose identifier is new adds it to the model and
/// leaves every other entry as it was.
proof fn lemma_pushed(before: Seq<Connection>, entry: Connection)
    requires
        distinct_ids(before),
        !has_id(before, entry.id),
    ensures
        distinct_ids(before.push(entry)),
        entries_model(before.push(entry)) == entries_model(before).insert(
            entry.id,
            frames_view(entry.outbound@),
        ),
{
    let after = before.push(entry);
    let id = entry.id;
    let last = before.len() as int;
    assert(forall|k: int| 0 <= k < before.len() ==> after[k] == before[k]);
    assert forall|i: int, j: int| 0 <= i < j < after.len() implies after[i].id != after[j].id by {
        if j == last {
            assert(before[i].id == after[i].id);
            assert(before[i].id != id);
        }
    }
    lemma_entry_at(after, last);
    assert forall|other: ConnectionId| other != id implies (has_id(after, other) == has_id(
        before,
        other,
    )) && (has_id(before, other) ==> entries_model(after)[other] == entries_model(
        before,
    )[other]) by {
        if has_id(before, other) {
            let k = index_of(before, other);
            assert(after[k].id == other);
            lemma_entry_at(before, k);
            lemma_entry_at(after, k);
        }
        if has_id(after, other) {
            let k = index_of(after, other);
            assert(before[k].id == other);
        }
    }
    assert(entries_model(after) =~= entries_model(before).insert(
        id,
        frames_view(entry.outbound@),
    ));
}

/// A list with distinct identifiers stands for a registry of as many
/// connections as it has entries.
proof fn lemma_model_size(entries: Seq<Connection>)
    requires
        distinct_ids(entries),
    ensures
        entries_model(entries).dom().finite(),
        entries_model(entries).dom().len() == entries.len(),
    decreases entries.len(),
{
    if entries.len() == 0 {
        assert(entries_model(entries).dom() =~= Set::<ConnectionId>::empty());
    } else {
        let last = entries.len() - 1;
        let rest = entries.remove(last);
        lemma_removed(entries, last);
        lemma_entry_at(entries, last);
        lemma_model_size(rest);
        assert(entries_model(entries).dom() =~= entries_model(rest).dom().insert(
            entries[last].id,
        ));
    }
}

} // verus!
