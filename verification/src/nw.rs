//! The observing handle.

use crate::base::hash_addr;
use crate::base::weak_addr;
use crate::base::weak_strong_count;
use crate::base::weak_upgrade;
use crate::base::weak_weak_count;
use crate::base::WeakBase;
use crate::ledger::Ledger;
use crate::node::Node;
use crate::nr::Nr;
use crate::util::cmp_ptr;
use crate::util::order_of;
use std::cmp::Ordering;
use std::hash::Hash;
use std::hash::Hasher;
use std::rc::Rc;
use vstd::prelude::*;
use vstd::std_specs::cmp::PartialEqSpec;
use vstd::std_specs::cmp::PartialOrdSpec;

verus! {

/// An observer of a node, or the empty observer, which observes nothing. It
/// does not keep the node alive; an upgrade gives an owning handle while the
/// node is there. Observers are equal, ordered and hashed by the allocation
/// they refer to.
#[verifier::reject_recursive_types(T)]
#[derive(Debug)]
pub struct Nw<T> {
    /// The observing reference, or nothing in the empty observer.
    base: Option<WeakBase<T>>,
    /// The address of the allocation.
    addr: usize,
}

impl<T> Nw<T> {
    /// Whether this is the empty observer.
    pub closed spec fn is_empty(&self) -> bool {
        self.base is None
    }

    /// The identity of the allocation that the observer refers to: its
    /// address. The empty observer has the greatest address there is, at which
    /// no allocation lies.
    pub closed spec fn id(&self) -> usize {
        if self.base is None {
            usize::MAX
        } else {
            self.addr
        }
    }

    /// Whether this is a live observer of the allocation of address `addr`:
    /// not the empty one, and with that address.
    pub open spec fn observes(&self, addr: usize) -> bool {
        !self.is_empty() && self.id() == addr
    }

    /// Whether two observers are the same: both empty, or both live and of
    /// one allocation.
    pub open spec fn same(&self, other: &Self) -> bool {
        if self.is_empty() || other.is_empty() {
            self.is_empty() && other.is_empty()
        } else {
            self.id() == other.id()
        }
    }

    /// The order of two observers: live ones by the addresses of their
    /// allocations, every live one before the empty one.
    pub open spec fn order(&self, other: &Self) -> Ordering {
        if self.is_empty() && other.is_empty() {
            Ordering::Equal
        } else if self.is_empty() {
            Ordering::Greater
        } else if other.is_empty() {
            Ordering::Less
        } else {
            order_of(self.id(), other.id())
        }
    }

    /// The empty observer.
    #[must_use]
    pub fn new() -> (r: Self)
        ensures
            r.is_empty(),
            r.id() == usize::MAX,
    {
        Nw { base: None, addr: usize::MAX }
    }

    /// Makes an observer from an observing reference to an allocation.
    #[must_use]
    pub fn from_base(base: WeakBase<T>) -> (r: Self)
        ensures
            !r.is_empty(),
    {
        let addr = weak_addr(&base);
        Nw { base: Some(base), addr }
    }

    /// Makes the observer of the allocation of address `addr` from an
    /// observing reference to it.
    pub(crate) fn with_id(base: WeakBase<T>, addr: usize) -> (r: Self)
        ensures
            r.observes(addr),
    {
        Nw { base: Some(base), addr }
    }

    /// The address of the allocation.
    #[must_use]
    pub fn as_ptr(&self) -> (r: usize)
        ensures
            r == self.id(),
    {
        match &self.base {
            Some(_) => self.addr,
            None => usize::MAX,
        }
    }

    /// The observing reference that the handle holds: none in the empty
    /// observer.
    #[must_use]
    pub fn base(&self) -> (r: &Option<WeakBase<T>>)
        ensures
            r is None <==> self.is_empty(),
    {
        &self.base
    }

    /// Reads what the allocation records at this moment, and hands out an
    /// owning reference to the node if it is still there. The counters are
    /// read first, so that this reference is not among the owners counted.
    fn read(base: &WeakBase<T>, addr: usize) -> (r: (Ledger, Option<Rc<Node<T>>>))
        ensures
            r.1 is None ==> !r.0.held,
        opens_invariants none
        no_unwind
    {
        let strong = weak_strong_count(base);
        let weak = weak_weak_count(base);
        let node = weak_upgrade(base);
        let occupant = match &node {
            Some(node) => node.self_ref_addr(),
            None => None,
        };
        (Ledger::seen(strong, weak, occupant, addr), node)
    }

    /// What the allocation records at this moment. The empty observer has
    /// nothing to read.
    pub fn ledger(&self) -> (r: Ledger)
        ensures
            self.is_empty() ==> r == (Ledger { strong: 0, weak: 0, held: false }),
    {
        match &self.base {
            Some(base) => Nw::read(base, self.addr).0,
            None => Ledger { strong: 0, weak: 0, held: false },
        }
    }

    /// Makes an owning handle to the node, if the node is still there. The
    /// empty observer gives nothing.
    #[must_use]
    pub fn upgrade(&self) -> (r: Option<Nr<T>>)
        ensures
            self.is_empty() ==> r is None,
            r matches Some(nr) ==> nr.id() == self.id(),
    {
        match &self.base {
            Some(base) => Nr::found(weak_upgrade(base), self.addr),
            None => None,
        }
    }

    /// The number of owning handles to the node: zero once the node is gone,
    /// and in the empty observer. The Self-Reference is not one of them.
    #[must_use]
    pub fn strong_count(&self) -> (r: usize)
        ensures
            self.is_empty() ==> r == 0,
    {
        self.ledger().strong_count()
    }

    /// The number of observers of the node: zero once the node is gone, and in
    /// the empty observer.
    #[must_use]
    pub fn weak_count(&self) -> (r: usize)
        ensures
            self.is_empty() ==> r == 0,
    {
        self.ledger().weak_count()
    }

    /// The order of two observers: live ones by the addresses of their
    /// allocations, every live one before the empty one.
    pub fn cmp(&self, other: &Self) -> (r: Ordering)
        ensures
            r == self.order(other),
    {
        match (&self.base, &other.base) {
            (Some(_), Some(_)) => cmp_ptr(self.addr, other.addr),
            (Some(_), None) => Ordering::Less,
            (None, Some(_)) => Ordering::Greater,
            (None, None) => Ordering::Equal,
        }
    }
}

impl<T> Clone for Nw<T> {
    /// One more observer of the same node.
    fn clone(&self) -> (r: Self)
        ensures
            r.id() == self.id(),
            r.is_empty() == self.is_empty(),
    {
        match &self.base {
            Some(base) => Nw { base: Some(base.clone()), addr: self.addr },
            None => Nw { base: None, addr: usize::MAX },
        }
    }
}

impl<T> Drop for Nw<T> {
    /// The last observer takes the Self-Reference with it.
    fn drop(&mut self)
        opens_invariants none
        no_unwind
    {
        match &self.base {
            Some(base) => {
                let (seen, node) = Nw::read(base, self.addr);
                match node {
                    Some(node) => if seen.weak_drop_releases() {
                        node.drop_self_ref();
                    },
                    None => {},
                }
            },
            None => {},
        }
    }
}

impl<T> Default for Nw<T> {
    fn default() -> (r: Self)
        ensures
            r.is_empty(),
            r.id() == usize::MAX,
    {
        Nw::new()
    }
}

impl<T> PartialEq for Nw<T> {
    fn eq(&self, other: &Self) -> (r: bool) {
        match (&self.base, &other.base) {
            (Some(_), Some(_)) => self.addr == other.addr,
            (None, None) => true,
            _ => false,
        }
    }
}

impl<T> vstd::std_specs::cmp::PartialEqSpecImpl for Nw<T> {
    open spec fn obeys_eq_spec() -> bool {
        true
    }

    open spec fn eq_spec(&self, other: &Self) -> bool {
        self.same(other)
    }
}

impl<T> Eq for Nw<T> {}

impl<T> PartialOrd for Nw<T> {
    fn partial_cmp(&self, other: &Self) -> (r: Option<Ordering>) {
        Some(self.cmp(other))
    }
}

impl<T> vstd::std_specs::cmp::PartialOrdSpecImpl for Nw<T> {
    open spec fn obeys_partial_cmp_spec() -> bool {
        true
    }

    open spec fn partial_cmp_spec(&self, other: &Self) -> Option<Ordering> {
        Some(self.order(other))
    }
}

impl<T> Hash for Nw<T> {
    /// Feeds the address of the allocation to the hasher, and nothing else.
    fn hash<H: Hasher>(&self, state: &mut H) {
        hash_addr(self.as_ptr(), state);
    }
}

/// The empty observer has the greatest address there is.
pub proof fn law_empty_id<T>(a: Nw<T>)
    requires
        a.is_empty(),
    ensures
        a.id() == usize::MAX,
{
}

/// All empty observers are equal to one another and in the order `Equal`, and
/// no live observer is equal to the empty one, wherever its allocation lies:
/// it comes before it.
pub proof fn law_empty_equal<T>(a: Nw<T>, b: Nw<T>)
    requires
        a.is_empty(),
    ensures
        b.is_empty() ==> a.eq_spec(&b) && a.partial_cmp_spec(&b) == Some(Ordering::Equal),
        !b.is_empty() ==> !a.eq_spec(&b) && !b.eq_spec(&a),
        !b.is_empty() ==> a.partial_cmp_spec(&b) == Some(Ordering::Greater),
        !b.is_empty() ==> b.partial_cmp_spec(&a) == Some(Ordering::Less),
{
}

/// Two live observers of one allocation are equal and in the order `Equal`; a
/// clone of a live observer is such an observer of the allocation that was
/// observed before, and so is every observer that was downgraded from a
/// handle to it.
pub proof fn law_same_node_equal<T>(a: Nw<T>, b: Nw<T>, addr: usize)
    requires
        a.observes(addr),
        b.observes(addr),
    ensures
        a.eq_spec(&b),
        b.eq_spec(&a),
        a.partial_cmp_spec(&b) == Some(Ordering::Equal),
{
}

/// Observers are equal exactly when they are in the order `Equal`; turning two
/// observers round turns their order round; and the order is transitive.
pub proof fn law_order_total<T>(a: Nw<T>, b: Nw<T>, c: Nw<T>)
    ensures
        a.eq_spec(&b) <==> a.order(&b) == Ordering::Equal,
        a.order(&b) == Ordering::Less <==> b.order(&a) == Ordering::Greater,
        a.order(&b) == Ordering::Equal <==> b.order(&a) == Ordering::Equal,
        a.order(&b) != Ordering::Greater && b.order(&c) != Ordering::Greater ==> a.order(&c)
            != Ordering::Greater,
{
}

} // verus!
