//! The column-selection capability for readable entity types.

use vstd::prelude::*;

verus! {

/// A capability naming the columns a readable entity type needs, so that
/// retrieval requests select only those.
pub trait Select {
    /// The attribute names to include in the query's select statement.
    fn get_columns() -> &'static [&'static str];
}

} // verus!
