//! The body of a node: what an allocation holds.

use crate::base::slot_addr;
use crate::base::slot_new;
use crate::base::slot_replace;
use crate::base::SelfSlot;
use crate::base::WeakBase;
use crate::nr::Nr;
use crate::nw::Nw;
use vstd::prelude::*;

verus! {

/// A value together with the place for the Self-Reference of the allocation
/// that holds it.
#[verifier::reject_recursive_types(T)]
#[derive(Debug)]
pub struct Node<T> {
    /// The value of the node.
    value: T,
    /// The Self-Reference, if one is installed.
    slot: SelfSlot<T>,
}

impl<T> Node<T> {
    /// The value of the node.
    pub closed spec fn content(&self) -> T {
        self.value
    }

    /// Makes the body of a node around `value`, with no Self-Reference.
    pub fn new(value: T) -> (r: Self)
        ensures
            r.content() == value,
    {
        Node { value, slot: slot_new() }
    }

    /// Makes the body of the node that a factory describes. The factory is
    /// handed an observer made from `weak`, which observes the allocation of
    /// address `addr` that the node will lie in.
    pub(crate) fn build<F>(data_fn: F, weak: WeakBase<T>, addr: usize) -> (r: Self) where
        F: FnOnce(&Nw<T>) -> T,

        requires
            forall|w: Nw<T>| data_fn.requires((&w,)),
        ensures
            exists|w: Nw<T>| w.observes(addr) && data_fn.ensures((&w,), r.content()),
    {
        let seen = Nw::with_id(weak, addr);
        Node::new(data_fn(&seen))
    }

    /// The value of the node.
    pub fn value(&self) -> (r: &T)
        ensures
            *r == self.content(),
    {
        &self.value
    }

    /// Whether the slot holds a handle at this moment.
    pub fn has_self_ref(&self) -> (r: bool)
        opens_invariants none
        no_unwind
    {
        match slot_addr(&self.slot) {
            Some(_) => true,
            None => false,
        }
    }

    /// The address of the handle that the slot holds at this moment: that of
    /// the node itself where the handle is its Self-Reference. Nothing where
    /// the slot is free.
    pub fn self_ref_addr(&self) -> (r: Option<usize>)
        opens_invariants none
        no_unwind
    {
        slot_addr(&self.slot)
    }

    /// Puts `value` into the slot, and releases what was there. It is the
    /// Self-Reference of the node where it is a handle to the allocation that
    /// holds the node; a handle to another allocation is kept alive by the
    /// slot and counts for nothing here.
    pub fn set_self_ref(&self, value: Nr<T>) {
        let _before = slot_replace(&self.slot, Some(value));
    }

    /// Frees the slot, and releases what was there.
    pub fn drop_self_ref(&self)
        opens_invariants none
        no_unwind
    {
        let _before = slot_replace(&self.slot, None);
    }
}

impl<T: Default> Default for Node<T> {
    fn default() -> (r: Self)
        ensures
            T::default.ensures((), r.content()),
    {
        Node::new(T::default())
    }
}

} // verus!
