//! The owning handle.

use crate::base::hash_addr;
use crate::base::rc_addr;
use crate::base::rc_clone;
use crate::base::rc_downgrade;
use crate::base::rc_new_cyclic;
use crate::base::rc_strong_count;
use crate::base::rc_weak_count;
use crate::base::show;
use crate::ledger::Ledger;
use crate::node::Node;
use crate::nw::Nw;
use crate::util::cmp_ptr;
use crate::util::order_of;
use std::cmp::Ordering;
use std::fmt::Display;
use std::fmt::Error;
use std::fmt::Formatter;
use std::hash::Hash;
use std::hash::Hasher;
use std::ops::Deref;
use std::rc::Rc;
use vstd::prelude::*;
use vstd::std_specs::cmp::PartialEqSpec;
use vstd::std_specs::cmp::PartialOrdSpec;

verus! {

/// An owning handle to a node. The node lives as long as an owning handle to
/// it does. Handles are equal, ordered and hashed by the allocation they refer
/// to, never by the value in it.
#[verifier::reject_recursive_types(T)]
#[derive(Debug)]
pub struct Nr<T> {
    /// The owning reference to the allocation.
    base: Rc<Node<T>>,
    /// The address of the allocation.
    addr: usize,
}

impl<T> Nr<T> {
    /// The identity of the allocation that the handle refers to: its address.
    pub closed spec fn id(&self) -> usize {
        self.addr
    }

    /// The value of the node that the handle refers to.
    pub closed spec fn content(&self) -> T {
        self.base.content()
    }

    /// Stores `value` in a new allocation and returns the one handle to it.
    pub fn new(value: T) -> (r: Self)
        ensures
            r.content() == value,
    {
        Nr::from_base(Rc::new(Node::new(value)))
    }

    /// Builds a node that knows itself. The factory is handed a live observer
    /// of the allocation that will hold the node, and returns the value to
    /// store there. While the factory runs there is no value yet, so an upgrade of
    /// that observer gives nothing; a copy that the value keeps can be
    /// upgraded once this function has returned. The node gets its
    /// Self-Reference at once.
    pub fn new_cyclic<F>(data_fn: F) -> (r: Self) where F: FnOnce(&Nw<T>) -> T
        requires
            forall|w: Nw<T>| data_fn.requires((&w,)),
        ensures
            exists|w: Nw<T>| w.observes(r.id()) && data_fn.ensures((&w,), r.content()),
    {
        let (base, addr) = rc_new_cyclic(data_fn);
        let made = Nr::with_id(base, addr);
        Nr::install(&made);
        made
    }

    /// Makes a handle from an owning reference to an allocation. References
    /// that stay outside a handle are counted as owners, but the drop of one
    /// releases no Self-Reference.
    #[must_use]
    pub fn from_base(base: Rc<Node<T>>) -> (r: Self)
        ensures
            r.content() == base.content(),
    {
        let addr = rc_addr(&base);
        Nr { base, addr }
    }

    /// Makes the handle to the allocation of address `addr` from an owning
    /// reference to it.
    pub(crate) fn with_id(base: Rc<Node<T>>, addr: usize) -> (r: Self)
        ensures
            r.id() == addr,
            r.content() == base.content(),
    {
        Nr { base, addr }
    }

    /// The address of the allocation.
    #[must_use]
    pub fn as_ptr(this: &Self) -> (r: usize)
        ensures
            r == this.id(),
    {
        this.addr
    }

    /// The owning reference that the handle holds.
    #[must_use]
    pub fn base(this: &Self) -> (r: &Rc<Node<T>>)
        ensures
            r.content() == this.content(),
    {
        &this.base
    }

    /// What the allocation records at this moment. The handle that reads is
    /// one of the owners, so the ledger shows an owner.
    pub fn ledger(this: &Self) -> (r: Ledger)
        ensures
            r.strong >= 1,
            r@.shown_strong() >= 1,
        opens_invariants none
        no_unwind
    {
        let strong = rc_strong_count(&this.base);
        let weak = rc_weak_count(&this.base);
        let occupant = this.base.self_ref_addr();
        Ledger::seen(strong, weak, occupant, this.addr)
    }

    /// Installs the Self-Reference of the node, unless it is there.
    fn install(this: &Self) {
        if Nr::ledger(this).installs() {
            this.base.set_self_ref(Nr::clone(this));
        }
    }

    /// Makes an observer of the node. The first downgrade of a node installs
    /// its Self-Reference, if it has none; later ones find it there.
    #[must_use]
    pub fn downgrade(this: &Self) -> (r: Nw<T>)
        ensures
            r.observes(this.id()),
    {
        Nr::install(this);
        Nw::with_id(rc_downgrade(&this.base), this.addr)
    }

    /// The number of owning handles to the node. The Self-Reference is not
    /// one of them; the handle that asks is.
    pub fn strong_count(this: &Self) -> (r: usize)
        ensures
            r >= 1,
    {
        Nr::ledger(this).strong_count()
    }

    /// The number of observers of the node.
    pub fn weak_count(this: &Self) -> (r: usize) {
        Nr::ledger(this).weak_count()
    }

    /// The order of two handles: that of the addresses of their allocations.
    pub fn cmp(&self, other: &Self) -> (r: Ordering)
        ensures
            r == order_of(self.id(), other.id()),
    {
        cmp_ptr(self.addr, other.addr)
    }

    /// The handle that an upgrade gives. `node` is what the observer of the
    /// allocation of address `addr` found there: an owning reference, or
    /// nothing where the node is gone. The handle is made around that
    /// reference where one was found, and is nothing otherwise.
    pub(crate) fn found(node: Option<Rc<Node<T>>>, addr: usize) -> (r: Option<Self>)
        ensures
            r is Some <==> node is Some,
            r matches Some(nr) ==> nr.id() == addr && nr.content() == node->0.content(),
    {
        match node {
            Some(node) => Some(Nr::with_id(node, addr)),
            None => None,
        }
    }
}

impl<T> Clone for Nr<T> {
    /// One more owning handle to the same node.
    fn clone(&self) -> (r: Self)
        ensures
            r.id() == self.id(),
            r.content() == self.content(),
    {
        Nr { base: rc_clone(&self.base), addr: self.addr }
    }
}

impl<T> Drop for Nr<T> {
    /// The last owning handle that the program can see takes the
    /// Self-Reference with it, so that the value can go.
    fn drop(&mut self)
        opens_invariants none
        no_unwind
    {
        if Nr::ledger(self).strong_drop_releases() {
            self.base.drop_self_ref();
        }
    }
}

impl<T> Deref for Nr<T> {
    type Target = T;

    fn deref(&self) -> (r: &T)
        ensures
            *r == self.content(),
    {
        self.base.value()
    }
}

impl<T: Display> Display for Nr<T> {
    /// A handle is written as its value is.
    fn fmt(&self, f: &mut Formatter<'_>) -> (r: Result<(), Error>) {
        show(self.base.value(), f)
    }
}

impl<T: Default> Default for Nr<T> {
    fn default() -> (r: Self)
        ensures
            T::default.ensures((), r.content()),
    {
        Nr::new(T::default())
    }
}

impl<T> PartialEq for Nr<T> {
    fn eq(&self, other: &Self) -> (r: bool) {
        self.addr == other.addr
    }
}

impl<T> vstd::std_specs::cmp::PartialEqSpecImpl for Nr<T> {
    open spec fn obeys_eq_spec() -> bool {
        true
    }

    open spec fn eq_spec(&self, other: &Self) -> bool {
        self.id() == other.id()
    }
}

impl<T> Eq for Nr<T> {}

impl<T> PartialOrd for Nr<T> {
    fn partial_cmp(&self, other: &Self) -> (r: Option<Ordering>) {
        Some(cmp_ptr(self.addr, other.addr))
    }
}

impl<T> vstd::std_specs::cmp::PartialOrdSpecImpl for Nr<T> {
    open spec fn obeys_partial_cmp_spec() -> bool {
        true
    }

    open spec fn partial_cmp_spec(&self, other: &Self) -> Option<Ordering> {
        Some(order_of(self.id(), other.id()))
    }
}

impl<T> Hash for Nr<T> {
    /// Feeds the address of the allocation to the hasher, and nothing else.
    fn hash<H: Hasher>(&self, state: &mut H) {
        hash_addr(self.addr, state);
    }
}

/// Two handles to one allocation are equal and in the order `Equal`, whatever
/// else is true of them; a clone is such a handle to the allocation of the
/// handle it was cloned from.
pub proof fn law_same_node_equal<T>(a: Nr<T>, b: Nr<T>)
    requires
        a.id() == b.id(),
    ensures
        a.eq_spec(&b),
        b.eq_spec(&a),
        order_of(a.id(), b.id()) == Ordering::Equal,
        a.partial_cmp_spec(&b) == Some(Ordering::Equal),
{
}

/// Handles are equal exactly when they are in the order `Equal`, and of two
/// handles that are not equal one is `Less` than the other, which is then
/// `Greater` than the first.
pub proof fn law_order_total<T>(a: Nr<T>, b: Nr<T>)
    ensures
        a.eq_spec(&b) <==> a.partial_cmp_spec(&b) == Some(Ordering::Equal),
        !a.eq_spec(&b) ==> (a.partial_cmp_spec(&b) == Some(Ordering::Less) <==> b.partial_cmp_spec(&a)
            == Some(Ordering::Greater)),
        !a.eq_spec(&b) ==> a.partial_cmp_spec(&b) == Some(Ordering::Less) || a.partial_cmp_spec(&b)
            == Some(Ordering::Greater),
{
}

/// The observer that a downgrade makes, upgraded again, gives a handle equal
/// to the one that was downgraded.
pub proof fn law_downgrade_upgrade<T>(this: Nr<T>, weak: Nw<T>, back: Nr<T>)
    requires
        weak.observes(this.id()),
        back.id() == weak.id(),
    ensures
        back.eq_spec(&this),
        order_of(back.id(), this.id()) == Ordering::Equal,
{
}

} // verus!
