//! The single-slot session registry.
//!
//! A registry holds at most one item at a time and owns it from
//! installation until explicit removal or replacement.  It is an
//! explicitly constructed object, not process-global state, so isolated
//! registries can be made at will.

use vstd::prelude::*;

verus! {

/// A single-slot holder of at most one value.
///
/// The engine keeps its authenticated session in one of these; the slot
/// abstracts to an `Option`, so "at most one live item" holds by
/// construction.
pub struct Registry<S> {
    slot: Option<S>,
}

impl<S> View for Registry<S> {
    type V = Option<S>;

    closed spec fn view(&self) -> Option<S> {
        self.slot
    }
}

impl<S> Registry<S> {
    /// An empty registry.
    pub fn new() -> (r: Registry<S>)
        ensures
            r@ is None,
    {
        Registry { slot: None }
    }

    /// Atomically replace whatever the slot holds with `item`, handing the
    /// displaced occupant (if any) back to the caller for teardown.  After
    /// the call the registry holds exactly `item`; a previous occupant is
    /// no longer reachable through the registry.
    pub fn install(&mut self, item: S) -> (displaced: Option<S>)
        ensures
            final(self)@ == Some(item),
            displaced == old(self)@,
    {
        let displaced = self.slot.take();
        self.slot = Some(item);
        displaced
    }

    /// Remove and return the occupant, leaving the slot empty.
    pub fn take_and_clear(&mut self) -> (taken: Option<S>)
        ensures
            final(self)@ is None,
            taken == old(self)@,
    {
        self.slot.take()
    }

    /// Whether the slot currently holds an item.
    pub fn is_occupied(&self) -> (r: bool)
        ensures
            r == (self@ is Some),
    {
        self.slot.is_some()
    }

    /// Lend the occupant for the duration of the borrow.
    pub fn current(&self) -> (r: Option<&S>)
        ensures
            r is Some <==> self@ is Some,
            r matches Some(item) ==> self@ == Some(*item),
    {
        self.slot.as_ref()
    }
}

} // verus!
