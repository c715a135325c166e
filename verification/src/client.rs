//! The request-URL constructions the transport layer sends: the paths
//! for one record, for a retrieval with column selection, and for a
//! query execution. The transport itself (HTTP, authentication) lives
//! outside this library and consumes these strings as built.

use vstd::prelude::*;

use crate::guid::Guid;
use crate::query::{columns_text, lemma_columns_take, Query};
use crate::text::append_str;

verus! {

/// The service API version named in every request path.
pub open spec fn version_text() -> Seq<char> {
    "9.2"@
}

/// The API version as a string slice.
pub fn version() -> (r: &'static str)
    ensures
        r@ == version_text(),
{
    "9.2"
}

/// The path of an entity collection: the organization's base URL, the
/// versioned API prefix, and the collection name.
pub open spec fn simple_url_text(base: Seq<char>, table: Seq<char>) -> Seq<char> {
    base + "api/data/v"@ + version_text() + "/"@ + table
}

/// The path of one record: the collection path with the record's
/// hyphenated identifier in parentheses.
pub open spec fn targeted_url_text(base: Seq<char>, table: Seq<char>, id: Guid) -> Seq<char> {
    simple_url_text(base, table) + "("@ + id.hyphenated_text() + ")"@
}

/// The URL that retrieves one record: its path plus the column
/// selection.
pub open spec fn retrieve_url_text(
    base: Seq<char>,
    table: Seq<char>,
    id: Guid,
    cols: Seq<&'static str>,
) -> Seq<char> {
    targeted_url_text(base, table, id) + "?$select="@ + columns_text(cols)
}

/// The URL that executes a query: the base URL, the versioned API
/// prefix, the query's own rendering, and the column selection joined
/// with `&`.
pub open spec fn query_url_text(base: Seq<char>, q: Query, cols: Seq<&'static str>) -> Seq<char> {
    base + "api/data/v"@ + version_text() + "/"@ + q.text() + "&$select="@ + columns_text(cols)
}

/// Appends the comma-separated column list from a slice.
fn append_columns_of(cols: &[&'static str], out: &mut String)
    ensures
        final(out)@ == old(out)@ + columns_text(cols@),
{
    let n = cols.len();
    let mut i: usize = 0;
    proof {
        assert(out@ =~= out@ + columns_text(cols@.take(0)));
    }
    while i < n
        invariant
            i <= n,
            n == cols@.len(),
            out@ == old(out)@ + columns_text(cols@.take(i as int)),
        decreases n - i,
    {
        if i > 0 {
            append_str(out, ",");
        }
        append_str(out, cols[i]);
        proof {
            lemma_columns_take(cols@, i as int);
            assert(out@ =~= old(out)@ + columns_text(cols@.take(i + 1)));
        }
        i += 1;
    }
    proof {
        assert(cols@.take(n as int) =~= cols@);
    }
}

/// The path of the given entity collection under the given base URL.
pub fn build_simple_url(base: &str, table_name: &str) -> (r: String)
    ensures
        r@ == simple_url_text(base@, table_name@),
{
    let mut out = String::new();
    append_str(&mut out, base);
    append_str(&mut out, "api/data/v");
    append_str(&mut out, "9.2");
    append_str(&mut out, "/");
    append_str(&mut out, table_name);
    assert(out@ =~= simple_url_text(base@, table_name@));
    out
}

/// The path of the record the identifier names in the given collection.
pub fn build_targeted_url(base: &str, table_name: &str, target_id: &Guid) -> (r: String)
    ensures
        r@ == targeted_url_text(base@, table_name@, *target_id),
{
    let mut out = build_simple_url(base, table_name);
    append_str(&mut out, "(");
    target_id.append_hyphenated(&mut out);
    append_str(&mut out, ")");
    assert(out@ =~= targeted_url_text(base@, table_name@, *target_id));
    out
}

/// The URL retrieving one record restricted to the given columns.
pub fn build_retrieve_url(base: &str, table_name: &str, target_id: &Guid, columns: &[&'static str])
    -> (r: String)
    ensures
        r@ == retrieve_url_text(base@, table_name@, *target_id, columns@),
{
    let mut out = build_targeted_url(base, table_name, target_id);
    append_str(&mut out, "?$select=");
    append_columns_of(columns, &mut out);
    assert(out@ =~= retrieve_url_text(base@, table_name@, *target_id, columns@));
    out
}

/// The URL executing the given query restricted to the given columns.
pub fn build_query_url(base: &str, query: &Query, columns: &[&'static str]) -> (r: String)
    ensures
        r@ == query_url_text(base@, *query, columns@),
{
    let mut out = String::new();
    append_str(&mut out, base);
    append_str(&mut out, "api/data/v");
    append_str(&mut out, "9.2");
    append_str(&mut out, "/");
    let rendered = query.to_string();
    append_str(&mut out, rendered.as_str());
    append_str(&mut out, "&$select=");
    append_columns_of(columns, &mut out);
    assert(out@ =~= query_url_text(base@, *query, columns@));
    out
}

} // verus!
