//! The order of allocation addresses.

use std::cmp::Ordering;
use vstd::prelude::*;

verus! {

/// The order of two addresses, taken as numbers.
pub open spec fn order_of(x: usize, y: usize) -> Ordering {
    if x < y {
        Ordering::Less
    } else if x == y {
        Ordering::Equal
    } else {
        Ordering::Greater
    }
}

/// Compares two addresses.
pub fn cmp_ptr(x: usize, y: usize) -> (r: Ordering)
    ensures
        r == order_of(x, y),
{
    if x < y {
        Ordering::Less
    } else if x == y {
        Ordering::Equal
    } else {
        Ordering::Greater
    }
}

/// An address is equal to itself, and only equal addresses are in the order
/// `Equal`.
pub proof fn law_order_equal(x: usize, y: usize)
    ensures
        order_of(x, x) == Ordering::Equal,
        order_of(x, y) == Ordering::Equal <==> x == y,
{
}

/// Turning the two addresses round turns the order round: what is `Less` one
/// way is `Greater` the other way.
pub proof fn law_order_antisymmetric(x: usize, y: usize)
    ensures
        order_of(x, y) == Ordering::Less <==> order_of(y, x) == Ordering::Greater,
        order_of(x, y) == Ordering::Equal <==> order_of(y, x) == Ordering::Equal,
{
}

/// The order is transitive.
pub proof fn law_order_transitive(x: usize, y: usize, z: usize)
    requires
        order_of(x, y) != Ordering::Greater,
        order_of(y, z) != Ordering::Greater,
    ensures
        order_of(x, z) != Ordering::Greater,
        order_of(x, z) == Ordering::Equal ==> x == y && y == z,
{
}

} // verus!
