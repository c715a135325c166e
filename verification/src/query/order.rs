//! Ordering directives for queries and their rendering as `$orderby`
//! items.

use vstd::prelude::*;

use crate::text::append_str;

verus! {

/// One ordering statement: a field name and a direction. A sequence of
/// them defines a multi-key sort, first entry most significant.
#[derive(Clone, Debug)]
pub enum Order {
    /// Sort by the field in ascending order.
    Ascending(&'static str),
    /// Sort by the field in descending order.
    Descending(&'static str),
}

impl Order {
    /// The `$orderby` item this directive renders to.
    pub open spec fn text(self) -> Seq<char> {
        match self {
            Order::Ascending(name) => name@ + " asc"@,
            Order::Descending(name) => name@ + " desc"@,
        }
    }

    /// Appends this directive's item text.
    pub(crate) fn append_text(&self, out: &mut String)
        ensures
            final(out)@ == old(out)@ + self.text(),
    {
        match self {
            Order::Ascending(name) => {
                append_str(out, name);
                append_str(out, " asc");
            },
            Order::Descending(name) => {
                append_str(out, name);
                append_str(out, " desc");
            },
        }
        assert(final(out)@ =~= old(out)@ + self.text());
    }

    /// This directive's item text as a string.
    pub fn to_string(&self) -> (r: String)
        ensures
            r@ == self.text(),
    {
        let mut out = String::new();
        self.append_text(&mut out);
        out
    }
}

} // verus!
