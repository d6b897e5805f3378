//! The owning handle to a node that can be changed.

use crate::base::cell_new;
use crate::ledger::Ledger;
use crate::node::Node;
use crate::nr::Nr;
use crate::nw::Nw;
use crate::nw_cell::NwCell;
use crate::util::order_of;
use std::cell::RefCell;
use std::cmp::Ordering;
use std::hash::Hash;
use std::hash::Hasher;
use std::ops::Deref;
use std::rc::Rc;
use vstd::prelude::*;
use vstd::std_specs::cmp::PartialEqSpec;
use vstd::std_specs::cmp::PartialOrdSpec;

verus! {

/// An owning handle to a node whose value lies in a borrow cell, so that it
/// can be changed through any handle. It counts and compares as the handle
/// inside it does.
#[verifier::reject_recursive_types(T)]
#[derive(Debug)]
pub struct NrCell<T> {
    /// The handle to the node that holds the cell.
    base: Nr<RefCell<T>>,
}

impl<T> NrCell<T> {
    /// The identity of the allocation that the handle refers to.
    pub closed spec fn id(&self) -> usize {
        self.base.id()
    }

    /// The cell of the node that the handle refers to.
    pub closed spec fn content(&self) -> RefCell<T> {
        self.base.content()
    }

    /// Stores `value` in the cell of a new node and returns the one handle to
    /// it.
    pub fn new(value: T) -> (r: Self) {
        NrCell { base: Nr::new(cell_new(value)) }
    }

    /// Builds a node that knows itself. The factory is handed a live observer
    /// of the node to be, typed to the value and not to the cell, and returns
    /// the value, which is then put into the cell of the node.
    pub fn new_cyclic<F>(data_fn: F) -> (r: Self) where F: FnOnce(&NwCell<T>) -> T
        requires
            forall|w: NwCell<T>| data_fn.requires((&w,)),
        ensures
            exists|w: NwCell<T>, value: T| w.observes(r.id()) && data_fn.ensures((&w,), value),
    {
        let in_cell = |w: &Nw<RefCell<T>>| -> (cell: RefCell<T>)
            ensures
                exists|seen: NwCell<T>, value: T|
                    seen.is_empty() == w.is_empty() && seen.id() == w.id() && data_fn.ensures(
                        (&seen,),
                        value,
                    ),
            {
                let seen = NwCell::from_base(Nw::clone(w));
                cell_new(data_fn(&seen))
            };
        let base = Nr::new_cyclic(in_cell);
        NrCell { base }
    }

    /// Makes a handle from the handle to a node that holds a cell.
    pub fn from_base(base: Nr<RefCell<T>>) -> (r: Self)
        ensures
            r.id() == base.id(),
            r.content() == base.content(),
    {
        NrCell { base }
    }

    /// The owning reference that the handle holds.
    pub fn bp(this: &Self) -> (r: &Rc<Node<RefCell<T>>>)
        ensures
            r.content() == this.content(),
    {
        Nr::base(&this.base)
    }

    /// What the allocation records at this moment. The handle that reads is
    /// one of the owners, so the ledger shows an owner.
    pub fn ledger(this: &Self) -> (r: Ledger)
        ensures
            r.strong >= 1,
            r@.shown_strong() >= 1,
    {
        Nr::ledger(&this.base)
    }

    /// Makes an observer of the node.
    #[must_use]
    pub fn downgrade(this: &Self) -> (r: NwCell<T>)
        ensures
            r.observes(this.id()),
    {
        NwCell::from_base(Nr::downgrade(&this.base))
    }

    /// The number of owning handles to the node. The Self-Reference is not
    /// one of them; the handle that asks is.
    pub fn strong_count(this: &Self) -> (r: usize)
        ensures
            r >= 1,
    {
        Nr::strong_count(&this.base)
    }

    /// The number of observers of the node.
    pub fn weak_count(this: &Self) -> (r: usize) {
        Nr::weak_count(&this.base)
    }

    /// The order of two handles: that of the addresses of their allocations.
    pub fn cmp(&self, other: &Self) -> (r: Ordering)
        ensures
            r == order_of(self.id(), other.id()),
    {
        self.base.cmp(&other.base)
    }

    /// The cell handle that an upgrade gives: one around the handle that was
    /// found, or nothing where none was found.
    pub(crate) fn found(base: Option<Nr<RefCell<T>>>) -> (r: Option<Self>)
        ensures
            r is Some <==> base is Some,
            r matches Some(nr) ==> nr.id() == base->0.id() && nr.content() == base->0.content(),
    {
        match base {
            Some(base) => Some(NrCell::from_base(base)),
            None => None,
        }
    }
}

impl<T> Clone for NrCell<T> {
    /// One more owning handle to the same node.
    fn clone(&self) -> (r: Self)
        ensures
            r.id() == self.id(),
            r.content() == self.content(),
    {
        NrCell { base: self.base.clone() }
    }
}

impl<T> Deref for NrCell<T> {
    type Target = RefCell<T>;

    fn deref(&self) -> (r: &RefCell<T>)
        ensures
            *r == self.content(),
    {
        self.base.deref()
    }
}

impl<T: Default> Default for NrCell<T> {
    fn default() -> (r: Self) {
        NrCell::new(T::default())
    }
}

impl<T> PartialEq for NrCell<T> {
    fn eq(&self, other: &Self) -> (r: bool) {
        self.base.eq(&other.base)
    }
}

impl<T> vstd::std_specs::cmp::PartialEqSpecImpl for NrCell<T> {
    open spec fn obeys_eq_spec() -> bool {
        true
    }

    open spec fn eq_spec(&self, other: &Self) -> bool {
        self.id() == other.id()
    }
}

impl<T> Eq for NrCell<T> {}

impl<T> PartialOrd for NrCell<T> {
    fn partial_cmp(&self, other: &Self) -> (r: Option<Ordering>) {
        Some(self.base.cmp(&other.base))
    }
}

impl<T> vstd::std_specs::cmp::PartialOrdSpecImpl for NrCell<T> {
    open spec fn obeys_partial_cmp_spec() -> bool {
        true
    }

    open spec fn partial_cmp_spec(&self, other: &Self) -> Option<Ordering> {
        Some(order_of(self.id(), other.id()))
    }
}

impl<T> Hash for NrCell<T> {
    /// Feeds the address of the allocation to the hasher, and nothing else.
    fn hash<H: Hasher>(&self, state: &mut H) {
        self.base.hash(state);
    }
}

/// Two cell handles to one allocation are equal and in the order `Equal`; a
/// clone is such a handle to the allocation of the handle it was cloned from,
/// and so is the handle that comes back when an observer downgraded from it is
/// upgraded.
pub proof fn law_same_node_equal<T>(a: NrCell<T>, b: NrCell<T>)
    requires
        a.id() == b.id(),
    ensures
        a.eq_spec(&b),
        b.eq_spec(&a),
        a.partial_cmp_spec(&b) == Some(Ordering::Equal),
{
}

} // verus!
