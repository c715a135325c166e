//! Query descriptors and their serialization to a URL query-string
//! fragment.
//!
//! A query names a target entity collection and optionally carries a
//! column selection, a result limit, a filter tree and ordering
//! directives. It renders as `<collection>[?<params>]` with the
//! parameters in the fixed order select, top, filter, orderby, the first
//! prefixed `?` and each following one prefixed `&`. That order and
//! punctuation are a wire contract with the service's URL parser.

use vstd::prelude::*;

use self::filter::Filter;
use self::order::Order;
use crate::text::{append_char, append_str, append_u64, dec_digits};

pub mod attribute;
pub mod filter;
pub mod order;

verus! {

/// The comma-separated rendering of a sequence of column names.
pub open spec fn columns_text(cols: Seq<&'static str>) -> Seq<char>
    decreases cols.len(),
{
    if cols.len() == 0 {
        Seq::empty()
    } else if cols.len() == 1 {
        cols[0]@
    } else {
        columns_text(cols.drop_last()) + ","@ + cols.last()@
    }
}

/// The comma-separated rendering of a sequence of ordering directives.
pub open spec fn orders_text(os: Seq<Order>) -> Seq<char>
    decreases os.len(),
{
    if os.len() == 0 {
        Seq::empty()
    } else if os.len() == 1 {
        os[0].text()
    } else {
        orders_text(os.drop_last()) + ","@ + os.last().text()
    }
}

/// Joins rendered parameters: nothing when there are none, otherwise `?`
/// before the first and `&` before each further one.
pub open spec fn params_text(segs: Seq<Seq<char>>) -> Seq<char>
    decreases segs.len(),
{
    if segs.len() == 0 {
        Seq::empty()
    } else if segs.len() == 1 {
        seq!['?'] + segs[0]
    } else {
        params_text(segs.drop_last()) + seq!['&'] + segs.last()
    }
}

proof fn lemma_params_push(segs: Seq<Seq<char>>, s: Seq<char>)
    ensures
        params_text(segs.push(s)) == params_text(segs) + (if segs.len() == 0 {
            seq!['?']
        } else {
            seq!['&']
        }) + s,
{
    let p = segs.push(s);
    assert(p.drop_last() =~= segs);
    assert(p.last() == s);
    if segs.len() == 0 {
        assert(params_text(p) == seq!['?'] + s);
        assert(params_text(segs) + seq!['?'] + s =~= seq!['?'] + s);
    } else {
        assert(params_text(p) == params_text(segs) + seq!['&'] + s);
    }
}

pub(crate) proof fn lemma_columns_take(cols: Seq<&'static str>, i: int)
    requires
        0 <= i < cols.len(),
    ensures
        columns_text(cols.take(i + 1)) == if i == 0 {
            cols[0]@
        } else {
            columns_text(cols.take(i)) + ","@ + cols[i]@
        },
{
    let t = cols.take(i + 1);
    assert(t.drop_last() =~= cols.take(i));
    assert(t.last() == cols[i]);
}

proof fn lemma_orders_take(os: Seq<Order>, i: int)
    requires
        0 <= i < os.len(),
    ensures
        orders_text(os.take(i + 1)) == if i == 0 {
            os[0].text()
        } else {
            orders_text(os.take(i)) + ","@ + os[i].text()
        },
{
    let t = os.take(i + 1);
    assert(t.drop_last() =~= os.take(i));
    assert(t.last() == os[i]);
}

/// A query against one entity collection.
pub struct Query {
    /// The logical name of the entity collection the query targets.
    pub logical_name: &'static str,
    /// The columns to retrieve; absent means the selection is not
    /// restricted here.
    pub columns: Option<Vec<&'static str>>,
    /// The largest number of records to return.
    pub limit: Option<u32>,
    /// The filter the returned records must match.
    pub filter: Option<Filter>,
    /// The ordering directives, first entry most significant.
    pub order: Option<Vec<Order>>,
}

impl Query {
    /// The rendered parameters this query contributes, in the fixed
    /// order select, top, filter, orderby.
    pub open spec fn segments(self) -> Seq<Seq<char>> {
        (match self.columns {
            Some(cs) => seq!["$select="@ + columns_text(cs@)],
            None => seq![],
        }) + (match self.limit {
            Some(n) => seq!["$top="@ + dec_digits(n as nat)],
            None => seq![],
        }) + (match self.filter {
            Some(f) => seq!["$filter="@ + f.text()],
            None => seq![],
        }) + (match self.order {
            Some(os) => seq!["$orderby="@ + orders_text(os@)],
            None => seq![],
        })
    }

    /// The query-string fragment this query renders to.
    pub open spec fn text(self) -> Seq<char> {
        self.logical_name@ + params_text(self.segments())
    }

    /// A new query against the given collection, with no column
    /// selection, no limit, no filter and no ordering.
    pub fn new(logical_name: &'static str) -> (r: Self)
        ensures
            r.logical_name == logical_name,
            r.columns is None,
            r.limit is None,
            r.filter is None,
            r.order is None,
    {
        Self { logical_name, columns: None, limit: None, filter: None, order: None }
    }

    /// Limits the query result to at most `count` records.
    pub fn limit(self, count: u32) -> (r: Self)
        ensures
            r.logical_name == self.logical_name,
            r.columns == self.columns,
            r.limit == Some(count),
            r.filter == self.filter,
            r.order == self.order,
    {
        Query {
            logical_name: self.logical_name,
            columns: self.columns,
            limit: Some(count),
            filter: self.filter,
            order: self.order,
        }
    }

    /// Keeps only records matching the given filter.
    pub fn filter(self, filter: Filter) -> (r: Self)
        ensures
            r.logical_name == self.logical_name,
            r.columns == self.columns,
            r.limit == self.limit,
            r.filter == Some(filter),
            r.order == self.order,
    {
        Query {
            logical_name: self.logical_name,
            columns: self.columns,
            limit: self.limit,
            filter: Some(filter),
            order: self.order,
        }
    }

    /// Orders the query result by the given directives.
    pub fn order(self, order: Vec<Order>) -> (r: Self)
        ensures
            r.logical_name == self.logical_name,
            r.columns == self.columns,
            r.limit == self.limit,
            r.filter == self.filter,
            r.order == Some(order),
    {
        Query {
            logical_name: self.logical_name,
            columns: self.columns,
            limit: self.limit,
            filter: self.filter,
            order: Some(order),
        }
    }

    /// Law: a query with no parameters renders as just its collection
    /// name — no `?` is emitted.
    pub proof fn lemma_bare_query_renders_name(q: Query)
        requires
            q.columns is None,
            q.limit is None,
            q.filter is None,
            q.order is None,
        ensures
            q.text() == q.logical_name@,
    {
        assert(q.segments() =~= Seq::<Seq<char>>::empty());
        assert(q.text() =~= q.logical_name@);
    }

    /// Law: a query whose only parameter is a limit renders as the
    /// collection name, `?$top=`, and the limit's digits.
    pub proof fn lemma_limit_only_rendering(q: Query, n: u32)
        requires
            q.columns is None,
            q.limit == Some(n),
            q.filter is None,
            q.order is None,
        ensures
            q.text() == q.logical_name@ + seq!['?'] + "$top="@ + dec_digits(n as nat),
    {
        assert(q.segments() =~= seq!["$top="@ + dec_digits(n as nat)]);
        assert(q.text() =~= q.logical_name@ + seq!['?'] + "$top="@ + dec_digits(n as nat));
    }

    /// Law: a query whose only parameter is a filter renders as the
    /// collection name, `?$filter=`, and the filter's expression text.
    pub proof fn lemma_filter_only_rendering(q: Query, f: Filter)
        requires
            q.columns is None,
            q.limit is None,
            q.filter == Some(f),
            q.order is None,
        ensures
            q.text() == q.logical_name@ + seq!['?'] + "$filter="@ + f.text(),
    {
        assert(q.segments() =~= seq!["$filter="@ + f.text()]);
        assert(q.text() =~= q.logical_name@ + seq!['?'] + "$filter="@ + f.text());
    }

    /// Law: a query whose only parameter is an ordering renders as the
    /// collection name, `?$orderby=`, and the comma-joined directives.
    pub proof fn lemma_order_only_rendering(q: Query, os: Vec<Order>)
        requires
            q.columns is None,
            q.limit is None,
            q.filter is None,
            q.order == Some(os),
        ensures
            q.text() == q.logical_name@ + seq!['?'] + "$orderby="@ + orders_text(os@),
    {
        assert(q.segments() =~= seq!["$orderby="@ + orders_text(os@)]);
        assert(q.text() =~= q.logical_name@ + seq!['?'] + "$orderby="@ + orders_text(os@));
    }

    /// Law: with limit, filter and ordering all present, the parameters
    /// render in that fixed order with `?` before the first and `&`
    /// before each further one — however the query was put together.
    pub proof fn lemma_full_rendering(q: Query, n: u32, f: Filter, os: Vec<Order>)
        requires
            q.columns is None,
            q.limit == Some(n),
            q.filter == Some(f),
            q.order == Some(os),
        ensures
            q.text() == q.logical_name@ + seq!['?'] + "$top="@ + dec_digits(n as nat) + seq!['&']
                + "$filter="@ + f.text() + seq!['&'] + "$orderby="@ + orders_text(os@),
    {
        let a = "$top="@ + dec_digits(n as nat);
        let b = "$filter="@ + f.text();
        let c = "$orderby="@ + orders_text(os@);
        let s0 = Seq::<Seq<char>>::empty();
        lemma_params_push(s0, a);
        lemma_params_push(s0.push(a), b);
        lemma_params_push(s0.push(a).push(b), c);
        assert(q.segments() =~= s0.push(a).push(b).push(c));
        assert(q.text() =~= q.logical_name@ + seq!['?'] + a + seq!['&'] + b + seq!['&'] + c);
    }

    /// Appends the comma-separated column list.
    fn append_columns(cols: &Vec<&'static str>, out: &mut String)
        ensures
            final(out)@ == old(out)@ + columns_text(cols@),
    {
        let n = cols.len();
        let mut i: usize = 0;
        proof {
            assert(out@ =~= out@ + columns_text(cols@.take(0)));
        }
        while i < n
            invariant
                i <= n,
                n == cols@.len(),
                out@ == old(out)@ + columns_text(cols@.take(i as int)),
            decreases n - i,
        {
            if i > 0 {
                append_str(out, ",");
            }
            append_str(out, cols[i]);
            proof {
                lemma_columns_take(cols@, i as int);
                assert(out@ =~= old(out)@ + columns_text(cols@.take(i + 1)));
            }
            i += 1;
        }
        proof {
            assert(cols@.take(n as int) =~= cols@);
        }
    }

    /// Appends the comma-separated ordering list.
    fn append_orders(os: &Vec<Order>, out: &mut String)
        ensures
            final(out)@ == old(out)@ + orders_text(os@),
    {
        let n = os.len();
        let mut i: usize = 0;
        proof {
            assert(out@ =~= out@ + orders_text(os@.take(0)));
        }
        while i < n
            invariant
                i <= n,
                n == os@.len(),
                out@ == old(out)@ + orders_text(os@.take(i as int)),
            decreases n - i,
        {
            if i > 0 {
                append_str(out, ",");
            }
            os[i].append_text(out);
            proof {
                lemma_orders_take(os@, i as int);
                assert(out@ =~= old(out)@ + orders_text(os@.take(i + 1)));
            }
            i += 1;
        }
        proof {
            assert(os@.take(n as int) =~= os@);
        }
    }

    /// The query-string fragment as a string: the collection name, then
    /// the present parameters with their `?` and `&` punctuation.
    #[verifier::rlimit(50)]
    pub fn to_string(&self) -> (r: String)
        ensures
            r@ == self.text(),
    {
        let mut out = String::new();
        append_str(&mut out, self.logical_name);
        let mut first_item: bool = true;
        let ghost mut done: Seq<Seq<char>> = Seq::empty();

        if let Some(cs) = &self.columns {
            if first_item {
                append_char(&mut out, '?');
                first_item = false;
            } else {
                append_char(&mut out, '&');
            }
            append_str(&mut out, "$select=");
            Self::append_columns(cs, &mut out);
            proof {
                lemma_params_push(done, "$select="@ + columns_text(cs@));
                done = done.push("$select="@ + columns_text(cs@));
                assert(out@ =~= self.logical_name@ + params_text(done));
            }
        }
        if let Some(n) = self.limit {
            if first_item {
                append_char(&mut out, '?');
                first_item = false;
            } else {
                append_char(&mut out, '&');
            }
            append_str(&mut out, "$top=");
            append_u64(&mut out, n as u64);
            proof {
                lemma_params_push(done, "$top="@ + dec_digits(n as nat));
                done = done.push("$top="@ + dec_digits(n as nat));
                assert(out@ =~= self.logical_name@ + params_text(done));
            }
        }
        if let Some(f) = &self.filter {
            if first_item {
                append_char(&mut out, '?');
                first_item = false;
            } else {
                append_char(&mut out, '&');
            }
            append_str(&mut out, "$filter=");
            f.append_text(&mut out);
            proof {
                lemma_params_push(done, "$filter="@ + f.text());
                done = done.push("$filter="@ + f.text());
                assert(out@ =~= self.logical_name@ + params_text(done));
            }
        }
        if let Some(os) = &self.order {
            if first_item {
                append_char(&mut out, '?');
            } else {
                append_char(&mut out, '&');
            }
            append_str(&mut out, "$orderby=");
            Self::append_orders(os, &mut out);
            proof {
                lemma_params_push(done, "$orderby="@ + orders_text(os@));
                done = done.push("$orderby="@ + orders_text(os@));
                assert(out@ =~= self.logical_name@ + params_text(done));
            }
        }
        proof {
            assert(done =~= self.segments());
        }
        out
    }
}

} // verus!
