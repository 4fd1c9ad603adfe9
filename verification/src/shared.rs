//! The process-wide table: built lazily on first access, at most once, behind
//! a thread-safe once-only cell, and never mutated afterwards.

use vstd::prelude::*;
use crate::lang::{spec_lookup, Lang};
use crate::table::{build_table, lookup_map_local, Table};

verus! {

#[verifier::external_type_specification]
#[verifier::external_body]
#[verifier::reject_recursive_types(T)]
pub struct ExOnceLock<T>(std::sync::OnceLock<T>);

/// A lazily initialized, immutable table. The cell is reachable only through
/// `new` and `table`, so whatever it stores is a table `build_table`
/// returned; a holder meant to live for the rest of the process realizes the
/// shared-table strategy.
pub struct SharedTable {
    cell: std::sync::OnceLock<Table>,
}

impl SharedTable {
    /// Relies on `std::sync::OnceLock::new`: returns a cell with no value
    /// stored in it.
    #[verifier::external_body]
    pub fn new() -> SharedTable {
        SharedTable { cell: std::sync::OnceLock::new() }
    }

    /// Relies on `std::sync::OnceLock::get_or_init`: returns the stored
    /// value, first storing the initializer's result if the cell is empty;
    /// the initializer runs at most once, under a once-only guard that is
    /// safe against concurrent first access. The cell is private and only
    /// ever initialized here, so the returned table is one `build_table`
    /// built, which is well formed by `build_table`'s own contract.
    #[verifier::external_body]
    fn table(&self) -> (t: &Table)
        ensures
            t.wf(),
    {
        self.cell.get_or_init(build_table)
    }

    /// Resolves a key against the lazily built shared content.
    pub fn lookup(&self, key: &str) -> (r: Option<Lang>)
        ensures
            r == spec_lookup(key@),
    {
        lookup_map_local(self.table(), key)
    }
}

/// Table-based resolver over the process-wide table: initializes the backing
/// table on first access, then performs one associative lookup.
pub fn lookup_map_static(shared: &SharedTable, key: &str) -> (r: Option<Lang>)
    ensures
        r == spec_lookup(key@),
{
    shared.lookup(key)
}

} // verus!
