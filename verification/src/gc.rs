//! An arena heap of generation-tagged slots. The collector's weak
//! references become `(slot index, generation)` handles; upgrading a
//! handle is a lookup that fails exactly when the slot was reclaimed
//! (its content taken out and its generation advanced) since the handle
//! was made. Handles never own their referent: reclamation is always
//! explicit, through `free`.

use vstd::prelude::*;

verus! {

/// A non-owning handle to one heap slot, valid for one generation of it.
#[derive(Clone, Copy, PartialEq, Eq, Hash, Debug, Structural)]
pub struct GcRef {
    pub index: usize,
    pub generation: u64,
}

/// One heap slot: its current generation and, while it is live, its content.
pub struct Slot<T> {
    pub generation: u64,
    pub content: Option<T>,
}

/// The arena. Every heap-resident value of the runtime lives in a slot;
/// all sharing goes through `GcRef` handles into it.
pub struct Heap<T> {
    pub slots: Vec<Slot<T>>,
}

impl<T> Heap<T> {
    /// The handle still resolves: its slot exists, has not been
    /// reclaimed, and is of the handle's generation.
    pub open spec fn live(self, r: GcRef) -> bool {
        &&& r.index < self.slots@.len()
        &&& self.slots@[r.index as int].generation == r.generation
        &&& self.slots@[r.index as int].content is Some
    }

    /// The content a live handle resolves to.
    pub open spec fn value_of(self, r: GcRef) -> T
        recommends
            self.live(r),
    {
        self.slots@[r.index as int].content->Some_0
    }

    /// An empty heap.
    pub fn new() -> (h: Heap<T>)
        ensures
            h.slots@.len() == 0,
    {
        Heap { slots: Vec::new() }
    }

    /// Places a value in a fresh slot and hands back a handle to it.
    /// Every handle that was live before stays live and unchanged.
    pub fn allocate(&mut self, v: T) -> (r: GcRef)
        requires
            old(self).slots@.len() < usize::MAX,
        ensures
            final(self).live(r),
            final(self).value_of(r) == v,
            !old(self).live(r),
            final(self).slots@.len() == old(self).slots@.len() + 1,
            forall|q: GcRef|
                old(self).live(q) ==> final(self).live(q) && final(self).value_of(q)
                    == old(self).value_of(q),
    {
        let index = self.slots.len();
        self.slots.push(Slot { generation: 0, content: Some(v) });
        GcRef { index, generation: 0 }
    }

    /// Whether a handle still resolves; the check behind a fallible upgrade.
    pub fn is_live(&self, r: GcRef) -> (b: bool)
        ensures
            b == self.live(r),
    {
        r.index < self.slots.len() && self.slots[r.index].generation == r.generation
            && self.slots[r.index].content.is_some()
    }

    /// The fallible upgrade of a handle: the content if the handle still
    /// resolves, nothing if its slot was reclaimed.
    pub fn try_get(&self, r: GcRef) -> (o: Option<&T>)
        ensures
            match o {
                Some(v) => self.live(r) && *v == self.value_of(r),
                None => !self.live(r),
            },
    {
        if r.index < self.slots.len() && self.slots[r.index].generation == r.generation {
            match &self.slots[r.index].content {
                Some(v) => Some(v),
                None => None,
            }
        } else {
            None
        }
    }

    /// The upgrade a correctly operating caller performs: the handle is
    /// known to be live, so the lookup cannot fail.
    pub fn get(&self, r: GcRef) -> (v: &T)
        requires
            self.live(r),
        ensures
            *v == self.value_of(r),
    {
        match &self.slots[r.index].content {
            Some(v) => v,
            None => unreached(),
        }
    }

    /// Overwrites the content of a live slot. Every holder of a handle to
    /// this slot observes the write; every other slot is untouched.
    pub fn set(&mut self, r: GcRef, v: T)
        requires
            old(self).live(r),
        ensures
            final(self).slots@ == old(self).slots@.update(
                r.index as int,
                Slot { generation: r.generation, content: Some(v) },
            ),
            final(self).live(r),
            final(self).value_of(r) == v,
            forall|q: GcRef|
                q.index != r.index && old(self).live(q) ==> final(self).live(q)
                    && final(self).value_of(q) == old(self).value_of(q),
    {
        let generation = self.slots[r.index].generation;
        self.slots[r.index] = Slot { generation, content: Some(v) };
    }

    /// Reclaims a slot: takes its content out and advances its generation,
    /// so that every outstanding handle to it stops resolving.
    pub fn free(&mut self, r: GcRef)
        requires
            old(self).live(r),
            r.generation < u64::MAX,
        ensures
            !final(self).live(r),
            final(self).slots@.len() == old(self).slots@.len(),
            forall|q: GcRef|
                q.index != r.index && old(self).live(q) ==> final(self).live(q)
                    && final(self).value_of(q) == old(self).value_of(q),
            forall|q: GcRef| q.index == r.index ==> !final(self).live(q),
    {
        self.slots[r.index] = Slot { generation: r.generation + 1, content: None };
    }
}

} // verus!
