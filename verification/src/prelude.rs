//! The names of the library in one place.

pub use crate::base::WeakBase;
pub use crate::ledger::Ledger;
pub use crate::node::Node;
pub use crate::nr::Nr;
pub use crate::nr_cell::NrCell;
pub use crate::nw::Nw;
pub use crate::nw_cell::NwCell;
pub use crate::util::cmp_ptr;
