use vstd::prelude::*;

pub mod bss_table;
pub mod ie_table;

pub use bss_table::BssTable;
pub use bss_table::BssTableColumnHeader;
pub use bss_table::BssTableState;
pub use ie_table::IeTable;
pub use ie_table::IeTableColumnHeader;
pub use ie_table::IeTableState;

verus! {

/// Direction in which a table is sorted.
#[derive(Debug, Copy, Clone, PartialEq, Eq, Structural)]
pub enum TableSortOrder {
    Ascending,
    Descending,
}

} // verus!
