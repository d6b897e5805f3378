//! What the handles have from std: the reference-counted allocation of
//! `std::rc` and the borrow cell of `std::cell`. Nothing in this file is
//! proved; each item says what it takes on trust.

use crate::node::Node;
use crate::nr::Nr;
use crate::nw::Nw;
use std::cell::RefCell;
use std::fmt::Debug;
use std::fmt::Display;
use std::fmt::Error;
use std::fmt::Formatter;
use std::hash::Hash;
use std::hash::Hasher;
use std::rc::Rc;
use std::rc::Weak;
use vstd::prelude::*;

verus! {

/// `std::cell::RefCell`, of which nothing is known but that it is a type.
#[verifier::external_type_specification]
#[verifier::external_body]
#[verifier::reject_recursive_types(T)]
pub struct ExRefCell<T: ?Sized>(RefCell<T>);

/// A `std::rc::Weak` to the allocation of a node. The library makes none
/// that dangles: each points at an allocation, whether the value in it is
/// there or not. The reference is hidden because `Weak` has an allocator
/// parameter that cannot be named here.
#[verifier::external_body]
#[verifier::reject_recursive_types(T)]
#[derive(Debug)]
pub struct WeakBase<T> {
    inner: Weak<Node<T>>,
}

/// The place in an allocation where its Self-Reference is kept: a
/// `std::cell::RefCell` around an optional owning handle. The cell is hidden
/// because a node that holds a handle to a node is a type that holds itself.
#[verifier::external_body]
#[verifier::reject_recursive_types(T)]
pub struct SelfSlot<T> {
    inner: RefCell<Option<Nr<T>>>,
}

/// `std::fmt::Formatter`, of which nothing is known but that it is a type.
#[verifier::external_type_specification]
#[verifier::external_body]
pub struct ExFormatter<'a>(Formatter<'a>);

/// `std::fmt::Error`, of which nothing is known but that it is a type.
#[verifier::external_type_specification]
#[verifier::external_body]
pub struct ExFmtError(Error);

impl<T> Debug for SelfSlot<T> {
    /// `Formatter::write_str`: writes the name of the slot and nothing of
    /// what is in it, which would be the node that holds the slot.
    #[verifier::external_body]
    fn fmt(&self, f: &mut Formatter<'_>) -> (r: Result<(), Error>) {
        f.write_str("SelfSlot")
    }
}

impl<T> Clone for WeakBase<T> {
    /// `Weak::clone`: one more observer of the same allocation.
    #[verifier::external_body]
    fn clone(&self) -> (r: Self) {
        WeakBase { inner: self.inner.clone() }
    }
}

/// `Rc::clone`: one more owning reference to the same allocation. Taken on
/// trust: it refers to the same node.
#[verifier::external_body]
pub(crate) fn rc_clone<T>(rc: &Rc<Node<T>>) -> (r: Rc<Node<T>>)
    ensures
        r == *rc,
{
    Rc::clone(rc)
}

/// `Rc::as_ptr`: the address of the allocation, as a number.
#[verifier::external_body]
pub(crate) fn rc_addr<T>(rc: &Rc<Node<T>>) -> (r: usize) {
    Rc::as_ptr(rc).cast::<()>() as usize
}

/// `Rc::strong_count`: the strong counter of the allocation. Taken on trust:
/// the reference that is asked is one of those counted.
#[verifier::external_body]
pub(crate) fn rc_strong_count<T>(rc: &Rc<Node<T>>) -> (r: usize)
    ensures
        r >= 1,
    opens_invariants none
    no_unwind
{
    Rc::strong_count(rc)
}

/// `Rc::weak_count`: the weak counter of the allocation.
#[verifier::external_body]
pub(crate) fn rc_weak_count<T>(rc: &Rc<Node<T>>) -> (r: usize)
    opens_invariants none
    no_unwind
{
    Rc::weak_count(rc)
}

/// `Rc::downgrade`: a new observer of the allocation.
#[verifier::external_body]
pub(crate) fn rc_downgrade<T>(rc: &Rc<Node<T>>) -> (r: WeakBase<T>) {
    WeakBase { inner: Rc::downgrade(rc) }
}

/// `Rc::new_cyclic`: allocates, hands the factory an observer of the
/// allocation, and stores the node that the factory returns. Given back are
/// the owning reference and the address of the allocation. Taken on trust:
/// the observer that the factory was handed lay at that address, which
/// `Weak::as_ptr` gives before the node is there as `Rc::as_ptr` gives it
/// afterwards, and the node stored is what the factory returned for it.
#[verifier::external_body]
pub(crate) fn rc_new_cyclic<T, F>(data_fn: F) -> (r: (Rc<Node<T>>, usize)) where
    F: FnOnce(&Nw<T>) -> T,

    requires
        forall|w: Nw<T>| data_fn.requires((&w,)),
    ensures
        exists|w: Nw<T>| w.observes(r.1) && data_fn.ensures((&w,), r.0.content()),
{
    let base = Rc::new_cyclic(
        |w| Node::build(data_fn, WeakBase { inner: w.clone() }, w.as_ptr().cast::<()>() as usize),
    );
    let addr = Rc::as_ptr(&base).cast::<()>() as usize;
    (base, addr)
}

/// `Weak::upgrade`: an owning reference to the allocation if the value is
/// still there.
#[verifier::external_body]
pub(crate) fn weak_upgrade<T>(weak: &WeakBase<T>) -> (r: Option<Rc<Node<T>>>)
    opens_invariants none
    no_unwind
{
    weak.inner.upgrade()
}

/// `Weak::as_ptr`: the address of the allocation, as a number.
#[verifier::external_body]
pub(crate) fn weak_addr<T>(weak: &WeakBase<T>) -> (r: usize) {
    weak.inner.as_ptr().cast::<()>() as usize
}

/// `Weak::strong_count`: the strong counter of the allocation.
#[verifier::external_body]
pub(crate) fn weak_strong_count<T>(weak: &WeakBase<T>) -> (r: usize)
    opens_invariants none
    no_unwind
{
    weak.inner.strong_count()
}

/// `Weak::weak_count`: the weak counter of the allocation, or zero once the
/// value is gone.
#[verifier::external_body]
pub(crate) fn weak_weak_count<T>(weak: &WeakBase<T>) -> (r: usize)
    opens_invariants none
    no_unwind
{
    weak.inner.weak_count()
}

/// `RefCell::new`, for an empty slot.
#[verifier::external_body]
pub(crate) fn slot_new<T>() -> (r: SelfSlot<T>) {
    SelfSlot { inner: RefCell::new(None) }
}

/// `RefCell::borrow`: the address of the handle that the slot holds at this
/// moment, or nothing where the slot is free. No borrow of the slot outlives
/// the function that took it, so this one is always granted.
#[verifier::external_body]
pub(crate) fn slot_addr<T>(slot: &SelfSlot<T>) -> (r: Option<usize>)
    opens_invariants none
    no_unwind
{
    slot.inner.borrow().as_ref().map(Nr::as_ptr)
}

/// `RefCell::replace`: puts `value` into the slot and hands out what was in
/// it, for the caller to drop once the slot is free again. No borrow of the
/// slot outlives the function that took it, so the exchange is always
/// granted.
#[verifier::external_body]
pub(crate) fn slot_replace<T>(slot: &SelfSlot<T>, value: Option<Nr<T>>) -> (r: Option<Nr<T>>)
    opens_invariants none
    no_unwind
{
    slot.inner.replace(value)
}

/// `RefCell::new`, for the value of a cell node.
#[verifier::external_body]
pub(crate) fn cell_new<T>(value: T) -> (r: RefCell<T>) {
    RefCell::new(value)
}

/// `Hash::hash` of an address: feeds the number to the hasher.
#[verifier::external_body]
pub(crate) fn hash_addr<H: Hasher>(addr: usize, state: &mut H) {
    addr.hash(state);
}

/// `Display::fmt` of a value: writes the value as its own `Display` does.
#[verifier::external_body]
pub(crate) fn show<T: Display>(value: &T, f: &mut Formatter<'_>) -> (r: Result<(), Error>) {
    value.fmt(f)
}

} // verus!
