//! A component table: sparse association of one component type with
//! entities, keyed by the entity's stable index. Slots are added as
//! entities are created and components are attached, detached or replaced
//! in place, so indices into other tables are never invalidated.

use vstd::prelude::*;

verus! {

/// One slot per entity; `None` where the entity does not carry this
/// component. Viewed as the sequence of its slots.
pub struct Table<T> {
    slots: Vec<Option<T>>,
}

impl<T> View for Table<T> {
    type V = Seq<Option<T>>;

    closed spec fn view(&self) -> Seq<Option<T>> {
        self.slots@
    }
}

impl<T> Table<T> {
    /// An empty table, for a world with no entities yet.
    pub fn new() -> (t: Table<T>)
        ensures
            t@ == Seq::<Option<T>>::empty(),
    {
        Table { slots: Vec::new() }
    }

    pub fn len(&self) -> (n: usize)
        ensures
            n == self@.len(),
    {
        self.slots.len()
    }

    /// Adds a slot for a newly created entity, carrying no component.
    pub fn push_empty(&mut self)
        requires
            old(self)@.len() < usize::MAX,
        ensures
            final(self)@ == old(self)@.push(None),
    {
        self.slots.push(None);
    }

    /// Attaches the component to entity `i`, replacing any previous one.
    pub fn set(&mut self, i: usize, value: T)
        requires
            i < old(self)@.len(),
        ensures
            final(self)@ == old(self)@.update(i as int, Some(value)),
    {
        self.slots[i] = Some(value);
    }

    /// Detaches the component from entity `i`; the slot stays, so no other
    /// index moves.
    pub fn clear(&mut self, i: usize)
        requires
            i < old(self)@.len(),
        ensures
            final(self)@ == old(self)@.update(i as int, None),
    {
        self.slots[i] = None;
    }

    /// The component of entity `i`, if it carries one.
    pub fn get(&self, i: usize) -> (r: &Option<T>)
        requires
            i < self@.len(),
        ensures
            *r == self@[i as int],
    {
        &self.slots[i]
    }
}

} // verus!
