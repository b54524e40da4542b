//! A minimal entity-component model: entities, per-component storages with
//! an append-only change log, and reader cursors.
//!
//! Every storage records each insert, in-place modification and removal in
//! an append-only event log. A consumer registers a [`ReaderId`] holding a
//! read offset into that log; reading classifies the events since the
//! cursor and advances it, so several independent consumers each see the
//! full event history exactly once.

use vstd::prelude::*;

use crate::math::Vector3;

verus! {

/// A stable entity identifier: a small dense index plus a generation tag
/// that distinguishes reuses of the same index. The surrounding engine
/// owns entity allocation; this crate only consumes entity identity.
#[derive(Clone, Copy, Debug, PartialEq, Eq, Structural)]
pub struct Entity {
    pub index: u32,
    pub generation: u32,
}

impl Entity {
    /// Builds an entity identifier from its index and generation.
    pub fn new(index: u32, generation: u32) -> (r: Entity)
        ensures
            r == (Entity { index, generation }),
    {
        Entity { index, generation }
    }

    /// The dense index, used as the key of every storage and handle table.
    pub fn id(&self) -> (r: u32)
        ensures
            r == self.index,
    {
        self.index
    }
}

/// A position/orientation component; this bridge reads and writes only the
/// translation part.
#[derive(Clone, Copy, Debug, PartialEq, Eq, Structural)]
pub struct Transform {
    pub translation: Vector3,
}

impl Transform {
    /// A transform at the given translation.
    pub fn from_translation(translation: Vector3) -> (r: Transform)
        ensures
            r == (Transform { translation }),
    {
        Transform { translation }
    }

    /// The translation part.
    pub fn translation(&self) -> (r: Vector3)
        ensures
            r == self.translation,
    {
        self.translation
    }
}

/// A parent-relationship component: the entity this entity is attached to.
#[derive(Clone, Copy, Debug, PartialEq, Eq, Structural)]
pub struct Parent {
    pub entity: Entity,
}

/// One entry of a storage's append-only change log.
#[derive(Clone, Copy, Debug, PartialEq, Eq, Structural)]
pub enum ComponentEvent {
    Inserted(u32),
    Modified(u32),
    Removed(u32),
}

/// Whether the last lifecycle event for `id` in the window is an insert:
/// the component was (re)inserted and not removed again afterwards.
pub open spec fn net_inserted(window: Seq<ComponentEvent>, id: u32) -> bool
    decreases window.len(),
{
    if window.len() == 0 {
        false
    } else if window.last() == ComponentEvent::Inserted(id) {
        true
    } else if window.last() == ComponentEvent::Removed(id) {
        false
    } else {
        net_inserted(window.drop_last(), id)
    }
}

/// Whether the last lifecycle event for `id` in the window is a removal:
/// the component was removed and not inserted again afterwards. A
/// component inserted and removed within the same window still surfaces
/// here, not under [`net_inserted`].
pub open spec fn net_removed(window: Seq<ComponentEvent>, id: u32) -> bool
    decreases window.len(),
{
    if window.len() == 0 {
        false
    } else if window.last() == ComponentEvent::Removed(id) {
        true
    } else if window.last() == ComponentEvent::Inserted(id) {
        false
    } else {
        net_removed(window.drop_last(), id)
    }
}

/// Whether the window holds any in-place modification of `id`.
pub open spec fn has_modified(window: Seq<ComponentEvent>, id: u32) -> bool
    decreases window.len(),
{
    if window.len() == 0 {
        false
    } else if window.last() == ComponentEvent::Modified(id) {
        true
    } else {
        has_modified(window.drop_last(), id)
    }
}

/// The "modified" classification of a window: modified in place, with no
/// lifecycle change taking precedence. The three classifications
/// [`net_inserted`], [`net_removed`] and [`net_modified`] are disjoint by
/// construction.
pub open spec fn net_modified(window: Seq<ComponentEvent>, id: u32) -> bool {
    has_modified(window, id) && !net_inserted(window, id) && !net_removed(window, id)
}

/// Whether a sequence of ids is strictly increasing (and therefore free
/// of duplicates).
pub open spec fn strictly_sorted(s: Seq<u32>) -> bool {
    forall|i: int, j: int| 0 <= i < j < s.len() ==> s[i] < s[j]
}

/// A set of entity indices, kept as a strictly sorted vector so that
/// consumers iterate ids in increasing order.
pub struct IdSet {
    pub ids: Vec<u32>,
}

impl View for IdSet {
    type V = Seq<u32>;

    open spec fn view(&self) -> Seq<u32> {
        self.ids@
    }
}

impl IdSet {
    /// The ids are strictly sorted.
    pub open spec fn wf(&self) -> bool {
        strictly_sorted(self.ids@)
    }

    /// Whether `x` is one of the ids.
    pub open spec fn has(&self, x: u32) -> bool {
        self.ids@.contains(x)
    }

    /// An empty id set.
    pub fn new() -> (r: IdSet)
        ensures
            r.wf(),
            r@ =~= Seq::<u32>::empty(),
    {
        IdSet { ids: Vec::new() }
    }

    /// The number of ids.
    pub fn len(&self) -> (r: usize)
        ensures
            r == self@.len(),
    {
        self.ids.len()
    }

    /// The `i`-th smallest id.
    pub fn idx(&self, i: usize) -> (r: u32)
        requires
            i < self@.len(),
        ensures
            r == self@[i as int],
    {
        self.ids[i]
    }

    /// Whether `x` is one of the ids.
    pub fn contains(&self, x: u32) -> (r: bool)
        ensures
            r == self.has(x),
    {
        let mut k: usize = 0;
        while k < self.ids.len()
            invariant
                k <= self.ids@.len(),
                forall|j: int| 0 <= j < k ==> self.ids@[j] != x,
            decreases self.ids@.len() - k,
        {
            if self.ids[k] == x {
                return true;
            }
            k = k + 1;
        }
        false
    }

    /// Adds `x`, keeping the ids sorted; a no-op when already present.
    pub fn insert(&mut self, x: u32)
        requires
            old(self).wf(),
        ensures
            final(self).wf(),
            forall|y: u32| final(self).has(y) <==> old(self).has(y) || y == x,
    {
        let mut pos: usize = 0;
        while pos < self.ids.len() && self.ids[pos] < x
            invariant
                pos <= self.ids@.len(),
                *self == *old(self),
                forall|j: int| 0 <= j < pos ==> self.ids@[j] < x,
            decreases self.ids@.len() - pos,
        {
            pos = pos + 1;
        }
        if pos < self.ids.len() && self.ids[pos] == x {
            proof {
                assert(old(self).has(x));
            }
            return ;
        }
        self.ids.insert(pos, x);
        proof {
            let s_old = old(self).ids@;
            let s_new = self.ids@;
            assert(s_new =~= s_old.take(pos as int) + seq![x] + s_old.skip(pos as int));
            assert forall|i: int, j: int| 0 <= i < j < s_new.len() implies s_new[i]
                < s_new[j] by {
                assert(forall|k: int|
                    pos <= k < s_old.len() ==> #[trigger] s_old[k] >= x && s_old[k] != x);
            }
            assert forall|y: u32| final(self).has(y) <==> old(self).has(y) || y == x by {
                if s_new.contains(y) {
                    let w = choose|w: int| 0 <= w < s_new.len() && s_new[w] == y;
                    if w < pos {
                        assert(s_old[w] == y);
                    } else if w == pos {
                        assert(y == x);
                    } else {
                        assert(s_old[w - 1] == y);
                    }
                }
                if s_old.contains(y) {
                    let w = choose|w: int| 0 <= w < s_old.len() && s_old[w] == y;
                    if w < pos {
                        assert(s_new[w] == y);
                    } else {
                        assert(s_new[w + 1] == y);
                    }
                }
                if y == x {
                    assert(s_new[pos as int] == x);
                }
            }
        }
    }

    /// Drops `x` from the ids; a no-op when absent.
    pub fn remove_id(&mut self, x: u32)
        requires
            old(self).wf(),
        ensures
            final(self).wf(),
            forall|y: u32| final(self).has(y) <==> old(self).has(y) && y != x,
    {
        let mut pos: usize = 0;
        while pos < self.ids.len()
            invariant
                pos <= self.ids@.len(),
                *self == *old(self),
                strictly_sorted(old(self).ids@),
                forall|j: int| 0 <= j < pos ==> self.ids@[j] != x,
            decreases self.ids@.len() - pos,
        {
            if self.ids[pos] == x {
                self.ids.remove(pos);
                proof {
                    let s_old = old(self).ids@;
                    let s_new = self.ids@;
                    assert(s_new =~= s_old.take(pos as int) + s_old.skip(pos as int + 1));
                    assert forall|i: int, j: int| 0 <= i < j < s_new.len() implies s_new[i]
                        < s_new[j] by {
                        assert(forall|i: int, j: int|
                            0 <= i < j < s_old.len() ==> #[trigger] s_old[i] < #[trigger] s_old[j]);
                    }
                    assert forall|y: u32| final(self).has(y) <==> old(self).has(y) && y
                        != x by {
                        if s_new.contains(y) {
                            let w = choose|w: int| 0 <= w < s_new.len() && s_new[w] == y;
                            if w < pos {
                                assert(s_old[w] == y);
                                assert(s_old[w] < s_old[pos as int]);
                            } else {
                                assert(s_old[w + 1] == y);
                                assert(s_old[pos as int] < s_old[w + 1]);
                            }
                            assert(y != x);
                        }
                        if s_old.contains(y) && y != x {
                            let w = choose|w: int| 0 <= w < s_old.len() && s_old[w] == y;
                            if w < pos {
                                assert(s_new[w] == y);
                            } else if w > pos {
                                assert(s_new[w - 1] == y);
                            }
                        }
                    }
                }
                return ;
            }
            pos = pos + 1;
        }
        proof {
            assert(!old(self).has(x));
        }
    }
}

/// A consumer's read offset into a storage's change log. Each consumer
/// owns its cursor; reading advances it unconditionally, so a consumer
/// that skips a tick permanently misses those events.
#[derive(Clone, Copy, Debug, PartialEq, Eq, Structural)]
pub struct ReaderId {
    pub cursor: usize,
}

/// A dense component storage with an append-only change log.
pub struct TrackedStorage<T> {
    /// Slot `i` holds the component of the entity with index `i`.
    pub slots: Vec<Option<T>>,
    /// Every insert, modification and removal, oldest first.
    pub events: Vec<ComponentEvent>,
}

impl<T> TrackedStorage<T> {
    /// Whether the entity with index `id` currently has a component.
    pub open spec fn contains_spec(&self, id: u32) -> bool {
        id < self.slots@.len() && self.slots@[id as int] is Some
    }

    /// The component of the entity with index `id`.
    pub open spec fn spec_get(&self, id: u32) -> T
        recommends
            self.contains_spec(id),
    {
        self.slots@[id as int]->0
    }

    /// The storage's contents as a map from entity index to component.
    pub open spec fn components(&self) -> Map<u32, T> {
        Map::new(|id: u32| self.contains_spec(id), |id: u32| self.spec_get(id))
    }

    /// An empty storage with an empty change log.
    pub fn new() -> (r: TrackedStorage<T>)
        ensures
            r.components() == Map::<u32, T>::empty(),
            r.events@ =~= Seq::<ComponentEvent>::empty(),
    {
        let r = TrackedStorage { slots: Vec::new(), events: Vec::new() };
        proof {
            assert(r.components() =~= Map::<u32, T>::empty());
        }
        r
    }

    /// Whether the entity with index `id` currently has a component.
    pub fn contains(&self, id: u32) -> (r: bool)
        ensures
            r == self.contains_spec(id),
    {
        (id as usize) < self.slots.len() && self.slots[id as usize].is_some()
    }

    /// The component of the entity with index `id`, if any.
    pub fn get(&self, id: u32) -> (r: Option<&T>)
        ensures
            match r {
                Some(v) => self.contains_spec(id) && *v == self.spec_get(id),
                None => !self.contains_spec(id),
            },
    {
        if (id as usize) < self.slots.len() {
            match &self.slots[id as usize] {
                Some(v) => Some(v),
                None => None,
            }
        } else {
            None
        }
    }

    /// Stores a component for the entity with index `id`, replacing any
    /// previous one, and logs an insert event.
    pub fn insert(&mut self, id: u32, value: T)
        ensures
            final(self).components() == old(self).components().insert(id, value),
            final(self).events@ == old(self).events@.push(ComponentEvent::Inserted(id)),
            final(self).slots@.len() == if old(self).slots@.len() >= id as int + 1 {
                old(self).slots@.len() as int
            } else {
                id as int + 1
            },
    {
        while self.slots.len() <= id as usize
            invariant
                self.slots@.len() >= old(self).slots@.len(),
                old(self).slots@.len() >= id as int + 1 ==> self.slots@.len() == old(
                    self,
                ).slots@.len(),
                old(self).slots@.len() < id as int + 1 ==> self.slots@.len() <= id as int + 1,
                forall|k: int|
                    0 <= k < old(self).slots@.len() ==> self.slots@[k] == #[trigger] old(
                        self,
                    ).slots@[k],
                forall|k: int|
                    old(self).slots@.len() <= k < self.slots@.len() ==> #[trigger] self.slots@[k]
                        is None,
                self.events == old(self).events,
            decreases id as int - self.slots.len() + 1,
        {
            self.slots.push(None);
        }
        self.slots[id as usize] = Some(value);
        self.events.push(ComponentEvent::Inserted(id));
        proof {
            assert(final(self).components() =~= old(self).components().insert(id, value));
        }
    }

    /// Replaces the component of the entity with index `id` and logs a
    /// modification event; returns false and does nothing when the entity
    /// has no such component.
    pub fn modify(&mut self, id: u32, value: T) -> (r: bool)
        ensures
            r == old(self).contains_spec(id),
            r ==> final(self).components() == old(self).components().insert(id, value)
                && final(self).events@ == old(self).events@.push(ComponentEvent::Modified(id)),
            !r ==> *final(self) == *old(self),
            final(self).slots@.len() == old(self).slots@.len(),
    {
        if (id as usize) < self.slots.len() && self.slots[id as usize].is_some() {
            self.slots[id as usize] = Some(value);
            self.events.push(ComponentEvent::Modified(id));
            proof {
                assert(final(self).components() =~= old(self).components().insert(id, value));
            }
            true
        } else {
            false
        }
    }

    /// Discards the component of the entity with index `id` and logs a
    /// removal event; returns false and does nothing when the entity has
    /// no such component.
    pub fn remove(&mut self, id: u32) -> (r: bool)
        ensures
            r == old(self).contains_spec(id),
            r ==> final(self).components() == old(self).components().remove(id)
                && final(self).events@ == old(self).events@.push(ComponentEvent::Removed(id)),
            !r ==> *final(self) == *old(self),
            final(self).slots@.len() == old(self).slots@.len(),
    {
        if (id as usize) < self.slots.len() && self.slots[id as usize].is_some() {
            self.slots[id as usize] = None;
            self.events.push(ComponentEvent::Removed(id));
            proof {
                assert(final(self).components() =~= old(self).components().remove(id));
            }
            true
        } else {
            false
        }
    }

    /// Registers a new consumer: its cursor starts at the current end of
    /// the log, so it sees exactly the events logged from now on.
    pub fn register_reader(&self) -> (r: ReaderId)
        ensures
            r.cursor == self.events@.len(),
    {
        ReaderId { cursor: self.events.len() }
    }

    /// The current length of the change log.
    pub fn num_events(&self) -> (r: usize)
        ensures
            r == self.events@.len(),
    {
        self.events.len()
    }
}

} // verus!
