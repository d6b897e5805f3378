//! Reference-counted handles for graph nodes, compared by identity.
//!
//! [`Nr`] owns a node and [`Nw`] observes one; [`NrCell`] and [`NwCell`] do the
//! same for a node that is changed after it was built. Two handles are equal
//! when they refer to the same allocation, whatever the values inside are, so
//! handles can serve as keys of sets and maps.
//!
//! An allocation may keep an owning handle to itself, its Self-Reference. It is
//! installed by the first downgrade, or when a node is built around an observer
//! of itself, and released when the last handle of either sort that the program
//! can see goes away. [`Ledger`] holds the rules by which the Self-Reference is
//! kept out of every reported count.

pub mod base;
pub mod ledger;
pub mod node;
pub mod nr;
pub mod nr_cell;
pub mod nw;
pub mod nw_cell;
pub mod prelude;
pub mod util;

pub use base::WeakBase;
pub use ledger::Ledger;
pub use node::Node;
pub use nr::Nr;
pub use nr_cell::NrCell;
pub use nw::Nw;
pub use nw_cell::NwCell;
pub use util::cmp_ptr;
