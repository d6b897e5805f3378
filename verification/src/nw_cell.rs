//! The observing handle to a node that can be changed.

use crate::base::WeakBase;
use crate::ledger::Ledger;
use crate::nr_cell::NrCell;
use crate::nw::Nw;
use crate::util::order_of;
use std::cell::RefCell;
use std::cmp::Ordering;
use std::hash::Hash;
use std::hash::Hasher;
use vstd::prelude::*;
use vstd::std_specs::cmp::PartialEqSpec;
use vstd::std_specs::cmp::PartialOrdSpec;

verus! {

/// An observer of a node whose value lies in a borrow cell, or the empty
/// observer. It counts and compares as the observer inside it does.
#[verifier::reject_recursive_types(T)]
#[derive(Debug)]
pub struct NwCell<T> {
    /// The observer of the node that holds the cell.
    base: Nw<RefCell<T>>,
}

impl<T> NwCell<T> {
    /// Whether this is the empty observer.
    pub closed spec fn is_empty(&self) -> bool {
        self.base.is_empty()
    }

    /// The identity of the allocation that the observer refers to; that of the
    /// empty observer is the greatest address there is.
    pub closed spec fn id(&self) -> usize {
        self.base.id()
    }

    /// Whether this is a live observer of the allocation of address `addr`:
    /// not the empty one, and with that address.
    pub open spec fn observes(&self, addr: usize) -> bool {
        !self.is_empty() && self.id() == addr
    }

    /// Whether two observers are the same: both empty, or both live and of
    /// one allocation.
    pub open spec fn same(&self, other: &Self) -> bool {
        if self.is_empty() || other.is_empty() {
            self.is_empty() && other.is_empty()
        } else {
            self.id() == other.id()
        }
    }

    /// The order of two observers: live ones by the addresses of their
    /// allocations, every live one before the empty one.
    pub open spec fn order(&self, other: &Self) -> Ordering {
        if self.is_empty() && other.is_empty() {
            Ordering::Equal
        } else if self.is_empty() {
            Ordering::Greater
        } else if other.is_empty() {
            Ordering::Less
        } else {
            order_of(self.id(), other.id())
        }
    }

    /// The empty observer.
    #[must_use]
    pub fn new() -> (r: Self)
        ensures
            r.is_empty(),
            r.id() == usize::MAX,
    {
        NwCell { base: Nw::new() }
    }

    /// Makes an observer from the observer of a node that holds a cell.
    pub fn from_base(base: Nw<RefCell<T>>) -> (r: Self)
        ensures
            r.id() == base.id(),
            r.is_empty() == base.is_empty(),
    {
        NwCell { base }
    }

    /// The observing reference that the handle holds: none in the empty
    /// observer.
    pub fn bp(&self) -> (r: &Option<WeakBase<RefCell<T>>>)
        ensures
            r is None <==> self.is_empty(),
    {
        self.base.base()
    }

    /// What the allocation records at this moment.
    pub fn ledger(&self) -> (r: Ledger)
        ensures
            self.is_empty() ==> r == (Ledger { strong: 0, weak: 0, held: false }),
    {
        self.base.ledger()
    }

    /// Makes an owning handle to the node, if the node is still there. The
    /// empty observer gives nothing.
    #[must_use]
    pub fn upgrade(&self) -> (r: Option<NrCell<T>>)
        ensures
            self.is_empty() ==> r is None,
            r matches Some(nr) ==> nr.id() == self.id(),
    {
        NrCell::found(self.base.upgrade())
    }

    /// The number of owning handles to the node: zero once the node is gone,
    /// and in the empty observer.
    #[must_use]
    pub fn strong_count(&self) -> (r: usize)
        ensures
            self.is_empty() ==> r == 0,
    {
        self.base.strong_count()
    }

    /// The number of observers of the node: zero once the node is gone, and in
    /// the empty observer.
    #[must_use]
    pub fn weak_count(&self) -> (r: usize)
        ensures
            self.is_empty() ==> r == 0,
    {
        self.base.weak_count()
    }

    /// The order of two observers: live ones by the addresses of their
    /// allocations, every live one before the empty one.
    pub fn cmp(&self, other: &Self) -> (r: Ordering)
        ensures
            r == self.order(other),
    {
        self.base.cmp(&other.base)
    }
}

impl<T> Clone for NwCell<T> {
    /// One more observer of the same node.
    fn clone(&self) -> (r: Self)
        ensures
            r.id() == self.id(),
            r.is_empty() == self.is_empty(),
    {
        NwCell { base: self.base.clone() }
    }
}

impl<T> Default for NwCell<T> {
    fn default() -> (r: Self)
        ensures
            r.is_empty(),
            r.id() == usize::MAX,
    {
        NwCell::new()
    }
}

impl<T> PartialEq for NwCell<T> {
    fn eq(&self, other: &Self) -> (r: bool) {
        self.base.eq(&other.base)
    }
}

impl<T> vstd::std_specs::cmp::PartialEqSpecImpl for NwCell<T> {
    open spec fn obeys_eq_spec() -> bool {
        true
    }

    open spec fn eq_spec(&self, other: &Self) -> bool {
        self.same(other)
    }
}

impl<T> Eq for NwCell<T> {}

impl<T> PartialOrd for NwCell<T> {
    fn partial_cmp(&self, other: &Self) -> (r: Option<Ordering>) {
        Some(self.base.cmp(&other.base))
    }
}

impl<T> vstd::std_specs::cmp::PartialOrdSpecImpl for NwCell<T> {
    open spec fn obeys_partial_cmp_spec() -> bool {
        true
    }

    open spec fn partial_cmp_spec(&self, other: &Self) -> Option<Ordering> {
        Some(self.order(other))
    }
}

impl<T> Hash for NwCell<T> {
    /// Feeds the address of the allocation to the hasher, and nothing else.
    fn hash<H: Hasher>(&self, state: &mut H) {
        self.base.hash(state);
    }
}

/// All empty cell observers are equal to one another and in the order
/// `Equal`, and no live observer is equal to the empty one: it comes before
/// it.
pub proof fn law_empty_equal<T>(a: NwCell<T>, b: NwCell<T>)
    requires
        a.is_empty(),
    ensures
        b.is_empty() ==> a.eq_spec(&b) && a.partial_cmp_spec(&b) == Some(Ordering::Equal),
        !b.is_empty() ==> !a.eq_spec(&b) && !b.eq_spec(&a),
        !b.is_empty() ==> a.partial_cmp_spec(&b) == Some(Ordering::Greater),
        !b.is_empty() ==> b.partial_cmp_spec(&a) == Some(Ordering::Less),
{
}

/// Two live cell observers of one allocation are equal and in the order
/// `Equal`.
pub proof fn law_same_node_equal<T>(a: NwCell<T>, b: NwCell<T>, addr: usize)
    requires
        a.observes(addr),
        b.observes(addr),
    ensures
        a.eq_spec(&b),
        b.eq_spec(&a),
        a.partial_cmp_spec(&b) == Some(Ordering::Equal),
{
}

} // verus!
