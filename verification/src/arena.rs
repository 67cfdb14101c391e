//! Arena storage with generation-checked handles.
//!
//! Gameplay entities refer to one another (an enemy travels to a building,
//! a waypoint marks an asteroid). Such a reference can outlive its target,
//! so entities live in arenas and are addressed by an [`EntityId`] carrying
//! the slot's generation: looking up a removed entity yields an explicit
//! not-found result, and a slot's generation is bumped on removal so that a
//! stale handle can never resolve to a later occupant.

use vstd::prelude::*;

verus! {

/// Handle to an entity in an [`Arena`]. Resolves only while the entity it
/// was issued for is still stored.
#[derive(Clone, Copy, PartialEq, Eq, Structural, Debug)]
pub struct EntityId {
    pub index: usize,
    pub generation: u64,
}

#[derive(Clone, Copy, Debug)]
struct Slot<T> {
    generation: u64,
    value: Option<T>,
}

/// A growable store of entities of one kind.
pub struct Arena<T> {
    slots: Vec<Slot<T>>,
}

impl<T: Copy> Arena<T> {
    /// Number of slots, occupied or free.
    pub closed spec fn spec_len(self) -> int {
        self.slots@.len() as int
    }

    /// The entity in slot `i`, if the slot is in range and occupied.
    pub closed spec fn spec_slot_value(self, i: int) -> Option<T> {
        if 0 <= i < self.slots@.len() {
            self.slots@[i].value
        } else {
            Option::<T>::None
        }
    }

    /// The handle that currently addresses slot `i`.
    pub closed spec fn spec_id_at(self, i: int) -> EntityId {
        EntityId { index: i as usize, generation: self.slots@[i].generation }
    }

    /// What the handle resolves to: the stored entity when the slot is in
    /// range, still of the handle's generation, and occupied.
    pub closed spec fn spec_get(self, id: EntityId) -> Option<T> {
        if id.index < self.slots@.len() && self.slots@[id.index as int].generation
            == id.generation {
            self.slots@[id.index as int].value
        } else {
            Option::<T>::None
        }
    }

    /// The handle still resolves.
    pub open spec fn contains(self, id: EntityId) -> bool {
        self.spec_get(id) is Some
    }

    pub fn new() -> (a: Arena<T>)
        ensures
            a.spec_len() == 0,
            forall|id: EntityId| a.spec_get(id) == Option::<T>::None,
    {
        Arena { slots: Vec::new() }
    }

    pub fn slot_count(&self) -> (n: usize)
        ensures
            n == self.spec_len(),
    {
        self.slots.len()
    }

    /// Resolve a handle.
    pub fn get(&self, id: EntityId) -> (r: Option<T>)
        ensures
            r == self.spec_get(id),
    {
        if id.index < self.slots.len() {
            let slot = self.slots[id.index];
            if slot.generation == id.generation {
                slot.value
            } else {
                Option::None
            }
        } else {
            Option::None
        }
    }

    /// Read slot `i` directly, handing back the handle that addresses it.
    pub fn get_at(&self, i: usize) -> (r: Option<(EntityId, T)>)
        requires
            i < self.spec_len(),
        ensures
            match r {
                Option::Some(p) => {
                    &&& self.spec_slot_value(i as int) == Option::Some(p.1)
                    &&& p.0 == self.spec_id_at(i as int)
                    &&& p.0.index == i
                    &&& self.spec_get(p.0) == Option::Some(p.1)
                },
                Option::None => self.spec_slot_value(i as int) is None,
            },
    {
        let slot = self.slots[i];
        match slot.value {
            Option::Some(v) => Option::Some((EntityId { index: i, generation: slot.generation }, v)),
            Option::None => Option::None,
        }
    }

    /// Store a new entity in the first reusable free slot, or in a fresh
    /// slot at the end. The handle handed back did not resolve before and
    /// resolves to the entity now; every other handle is untouched.
    pub fn insert(&mut self, value: T) -> (id: EntityId)
        ensures
            old(self).spec_get(id) == Option::<T>::None,
            final(self).spec_get(id) == Option::Some(value),
            id.index < final(self).spec_len(),
            old(self).spec_len() <= final(self).spec_len() <= old(self).spec_len() + 1,
            final(self).spec_len() > old(self).spec_len() ==> id.index == old(self).spec_len(),
            old(self).spec_slot_value(id.index as int) == Option::<T>::None,
            final(self).spec_slot_value(id.index as int) == Option::Some(value),
            forall|o: EntityId| o != id ==> final(self).spec_get(o) == old(self).spec_get(o),
            forall|k: int| k != id.index ==> final(self).spec_slot_value(k)
                == old(self).spec_slot_value(k),
            forall|k: int| 0 <= k < old(self).spec_len() && k != id.index
                ==> final(self).spec_id_at(k) == old(self).spec_id_at(k),
            id.generation < u64::MAX,
            id.index < old(self).spec_len() ==> id == old(self).spec_id_at(id.index as int),
    {
        let n = self.slots.len();
        let mut i: usize = 0;
        let mut found: Option<usize> = Option::None;
        while i < n
            invariant
                n == self.slots@.len(),
                match found {
                    Option::Some(j) => j < n && self.slots@[j as int].value is None
                        && self.slots@[j as int].generation < u64::MAX,
                    Option::None => true,
                },
            decreases n - i,
        {
            if found.is_none() {
                let slot = self.slots[i];
                if slot.value.is_none() && slot.generation < u64::MAX {
                    found = Option::Some(i);
                }
            }
            i = i + 1;
        }
        match found {
            Option::Some(j) => {
                let generation = self.slots[j].generation;
                self.slots[j] = Slot { generation, value: Option::Some(value) };
                EntityId { index: j, generation }
            },
            Option::None => {
                self.slots.push(Slot { generation: 0, value: Option::Some(value) });
                EntityId { index: self.slots.len() - 1, generation: 0 }
            },
        }
    }

    /// Remove the entity a handle resolves to, if any, bumping the slot's
    /// generation so the handle (and any copy of it) never resolves again.
    pub fn remove(&mut self, id: EntityId) -> (r: Option<T>)
        ensures
            r == old(self).spec_get(id),
            final(self).spec_get(id) == Option::<T>::None,
            final(self).spec_len() == old(self).spec_len(),
            final(self).spec_slot_value(id.index as int) == (if old(self).contains(id) {
                Option::<T>::None
            } else {
                old(self).spec_slot_value(id.index as int)
            }),
            forall|o: EntityId| o != id ==> final(self).spec_get(o) == old(self).spec_get(o),
            forall|k: int| k != id.index ==> final(self).spec_slot_value(k)
                == old(self).spec_slot_value(k),
            forall|k: int| 0 <= k < old(self).spec_len() && k != id.index
                ==> final(self).spec_id_at(k) == old(self).spec_id_at(k),
            // A removed handle is retired: its slot is re-addressed, or
            // frozen for good at the last generation.
            old(self).contains(id) ==> (final(self).spec_id_at(id.index as int) != id
                || final(self).spec_id_at(id.index as int).generation == u64::MAX),
    {
        if id.index < self.slots.len() {
            let slot = self.slots[id.index];
            if slot.generation == id.generation && slot.value.is_some() {
                let generation = if slot.generation < u64::MAX {
                    slot.generation + 1
                } else {
                    slot.generation
                };
                self.slots[id.index] = Slot { generation, value: Option::None };
                return slot.value;
            }
        }
        Option::None
    }

    /// Overwrite the entity a handle resolves to.
    pub fn replace(&mut self, id: EntityId, value: T)
        requires
            old(self).contains(id),
        ensures
            final(self).spec_len() == old(self).spec_len(),
            final(self).spec_get(id) == Option::Some(value),
            final(self).spec_slot_value(id.index as int) == Option::Some(value),
            forall|o: EntityId| o != id ==> final(self).spec_get(o) == old(self).spec_get(o),
            forall|k: int| k != id.index ==> final(self).spec_slot_value(k)
                == old(self).spec_slot_value(k),
            forall|k: int| 0 <= k < final(self).spec_len() ==> final(self).spec_id_at(k)
                == old(self).spec_id_at(k),
    {
        let generation = self.slots[id.index].generation;
        self.slots[id.index] = Slot { generation, value: Option::Some(value) };
    }
}

/// How many of the first `n` slots hold an entity. Opaque: callers reason
/// about it only through the counting lemmas below.
#[verifier::opaque]
pub open spec fn spec_live_count<T: Copy>(a: Arena<T>, n: int) -> int
    decreases n,
{
    if n <= 0 {
        0
    } else {
        spec_live_count(a, n - 1) + (if a.spec_slot_value(n - 1) is Some {
            1int
        } else {
            0int
        })
    }
}

/// Two stores agreeing on their first `n` slots hold the same count there.
pub proof fn lemma_live_count_eq<T: Copy>(a: Arena<T>, b: Arena<T>, n: int)
    requires
        forall|k: int| 0 <= k < n ==> a.spec_slot_value(k) == b.spec_slot_value(k),
    ensures
        spec_live_count(a, n) == spec_live_count(b, n),
    decreases n,
{
    reveal_with_fuel(spec_live_count, 2);
    if n > 0 {
        lemma_live_count_eq(a, b, n - 1);
    }
}

/// Filling one free slot raises the count over a fixed prefix by one.
proof fn lemma_live_count_fill<T: Copy>(before: Arena<T>, after: Arena<T>, n: int, idx: int)
    requires
        0 <= idx < n,
        before.spec_slot_value(idx) is None,
        after.spec_slot_value(idx) is Some,
        forall|k: int| k != idx ==> after.spec_slot_value(k) == before.spec_slot_value(k),
    ensures
        spec_live_count(after, n) == spec_live_count(before, n) + 1,
    decreases n,
{
    reveal_with_fuel(spec_live_count, 2);
    if idx == n - 1 {
        lemma_live_count_eq(before, after, n - 1);
    } else {
        lemma_live_count_fill(before, after, n - 1, idx);
    }
}

/// Two stores whose first `n` slots are occupied alike hold the same
/// number of entities there, whatever the entities are.
pub proof fn lemma_live_count_shape<T: Copy>(a: Arena<T>, b: Arena<T>, n: int)
    requires
        forall|k: int|
            0 <= k < n ==> (#[trigger] a.spec_slot_value(k)) is Some == b.spec_slot_value(k)
                is Some,
    ensures
        spec_live_count(a, n) == spec_live_count(b, n),
    decreases n,
{
    reveal_with_fuel(spec_live_count, 2);
    if n > 0 {
        lemma_live_count_shape(a, b, n - 1);
    }
}

/// A removal-shaped change — one occupied slot emptied, everything else
/// untouched — lowers the number of stored entities by exactly one.
pub proof fn lemma_live_count_remove<T: Copy>(before: Arena<T>, after: Arena<T>, id: EntityId)
    requires
        before.spec_slot_value(id.index as int) is Some,
        after.spec_slot_value(id.index as int) is None,
        forall|k: int| k != id.index ==> after.spec_slot_value(k) == before.spec_slot_value(k),
        after.spec_len() == before.spec_len(),
        id.index < before.spec_len(),
    ensures
        spec_live_count(after, after.spec_len()) == spec_live_count(before, before.spec_len())
            - 1,
{
    lemma_live_count_fill(after, before, before.spec_len(), id.index as int);
}

/// An insertion-shaped change — one free or fresh slot filled, everything
/// else untouched — raises the number of stored entities by exactly one.
pub proof fn lemma_live_count_insert<T: Copy>(before: Arena<T>, after: Arena<T>, id: EntityId)
    requires
        before.spec_slot_value(id.index as int) is None,
        after.spec_slot_value(id.index as int) is Some,
        forall|k: int| k != id.index ==> after.spec_slot_value(k) == before.spec_slot_value(k),
        before.spec_len() <= after.spec_len() <= before.spec_len() + 1,
        after.spec_len() > before.spec_len() ==> id.index == before.spec_len(),
        id.index < after.spec_len(),
    ensures
        spec_live_count(after, after.spec_len()) == spec_live_count(before, before.spec_len())
            + 1,
{
    reveal_with_fuel(spec_live_count, 2);
    if after.spec_len() == before.spec_len() {
        lemma_live_count_fill(before, after, after.spec_len(), id.index as int);
    } else {
        lemma_live_count_eq(before, after, before.spec_len());
        assert(after.spec_slot_value(after.spec_len() - 1) is Some);
    }
}

/// Only a slot in range can hold an entity.
pub proof fn lemma_slot_in_range<T: Copy>(a: Arena<T>, k: int)
    ensures
        a.spec_slot_value(k) is Some ==> 0 <= k < a.spec_len(),
{
}

/// A slot's own handle resolves to the slot's contents.
pub proof fn lemma_id_at_get<T: Copy>(a: Arena<T>, i: int)
    requires
        0 <= i < a.spec_len(),
    ensures
        a.spec_get(a.spec_id_at(i)) == a.spec_slot_value(i),
{
    vstd::std_specs::vec::axiom_spec_len(&a.slots);
}

/// A handle that resolves does so through its own slot: its index is in
/// range and the slot holds what the handle resolves to.
pub proof fn lemma_get_slot<T: Copy>(a: Arena<T>, id: EntityId)
    ensures
        a.spec_get(id) is Some ==> id.index < a.spec_len() && a.spec_get(id) == a.spec_slot_value(
            id.index as int,
        ) && a.spec_id_at(id.index as int) == id,
{
}

} // verus!
