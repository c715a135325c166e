//! Filter expression trees and their rendering as OData `$filter` text.

use vstd::prelude::*;

use super::attribute::Attribute;
use crate::text::append_str;

verus! {

/// A filter over a field name and an attribute value, or a boolean
/// combination of filters.
///
/// Rendering recurses depth-first and never inserts parentheses around
/// sub-expressions: operator precedence is left to the server's parser.
pub enum Filter {
    /// An equality comparison, rendered with `eq`.
    Equal(&'static str, Attribute),
    /// An inequality comparison, rendered with `ne`.
    NotEqual(&'static str, Attribute),
    /// A strictly-greater comparison, rendered with `gt`.
    GreaterThan(&'static str, Attribute),
    /// A greater-or-equal comparison, rendered with `ge`.
    GreaterOrEqual(&'static str, Attribute),
    /// A strictly-less comparison, rendered with `lt`.
    LessThan(&'static str, Attribute),
    /// A less-or-equal comparison, rendered with `le`.
    LessOrEqual(&'static str, Attribute),
    /// A string-contains test, rendered as `contains(field,value)`.
    Contains(&'static str, Attribute),
    /// A string-prefix test, rendered as `startswith(field,value)`.
    StartsWith(&'static str, Attribute),
    /// A string-suffix test, rendered as `endswith(field,value)`.
    EndsWith(&'static str, Attribute),
    /// Both operands must hold, rendered with `and`.
    And(Box<Filter>, Box<Filter>),
    /// At least one operand must hold, rendered with `or`.
    Or(Box<Filter>, Box<Filter>),
    /// The operand must not hold, rendered with `not`.
    Not(Box<Filter>),
}

impl Filter {
    /// The `$filter` expression text this tree renders to, depth-first
    /// and without inserted parentheses.
    pub open spec fn text(self) -> Seq<char>
        decreases self,
    {
        match self {
            Filter::Equal(name, a) => name@ + " eq "@ + a.text(),
            Filter::NotEqual(name, a) => name@ + " ne "@ + a.text(),
            Filter::GreaterThan(name, a) => name@ + " gt "@ + a.text(),
            Filter::GreaterOrEqual(name, a) => name@ + " ge "@ + a.text(),
            Filter::LessThan(name, a) => name@ + " lt "@ + a.text(),
            Filter::LessOrEqual(name, a) => name@ + " le "@ + a.text(),
            Filter::Contains(name, a) => "contains("@ + name@ + ","@ + a.text() + ")"@,
            Filter::StartsWith(name, a) => "startswith("@ + name@ + ","@ + a.text() + ")"@,
            Filter::EndsWith(name, a) => "endswith("@ + name@ + ","@ + a.text() + ")"@,
            Filter::And(left, right) => left.text() + " and "@ + right.text(),
            Filter::Or(left, right) => left.text() + " or "@ + right.text(),
            Filter::Not(inner) => "not "@ + inner.text(),
        }
    }

    /// Law: negation never inserts parentheses: for all filters `a` and
    /// `b`, `Not(And(a, b))` renders as `not ` followed by a's text,
    /// ` and `, and b's text — the negation binds only to the left
    /// operand in the server's grammar, and this serializer reproduces
    /// that flat form rather than parenthesizing.
    pub proof fn lemma_not_and_renders_flat(a: Filter, b: Filter)
        ensures
            Filter::Not(Box::new(Filter::And(Box::new(a), Box::new(b)))).text() == "not "@
                + a.text() + " and "@ + b.text(),
    {
        reveal_with_fuel(Filter::text, 3);
        assert(Filter::Not(Box::new(Filter::And(Box::new(a), Box::new(b)))).text() =~= "not "@
            + a.text() + " and "@ + b.text());
    }

    /// Combines this filter and the given one with `and`.
    pub fn and(self, other: Filter) -> (r: Filter)
        ensures
            r == Filter::And(Box::new(self), Box::new(other)),
    {
        Filter::And(Box::new(self), Box::new(other))
    }

    /// Combines this filter and the given one with `and`, negated.
    pub fn not_and(self, other: Filter) -> (r: Filter)
        ensures
            r == Filter::Not(Box::new(Filter::And(Box::new(self), Box::new(other)))),
    {
        Filter::Not(Box::new(Filter::And(Box::new(self), Box::new(other))))
    }

    /// Combines this filter and the given one with `or`.
    pub fn or(self, other: Filter) -> (r: Filter)
        ensures
            r == Filter::Or(Box::new(self), Box::new(other)),
    {
        Filter::Or(Box::new(self), Box::new(other))
    }

    /// Combines this filter and the given one with `or`, negated.
    pub fn not_or(self, other: Filter) -> (r: Filter)
        ensures
            r == Filter::Not(Box::new(Filter::Or(Box::new(self), Box::new(other)))),
    {
        Filter::Not(Box::new(Filter::Or(Box::new(self), Box::new(other))))
    }

    /// Appends this tree's expression text.
    pub(crate) fn append_text(&self, out: &mut String)
        ensures
            final(out)@ == old(out)@ + self.text(),
        decreases *self,
    {
        match self {
            Filter::Equal(name, a) => {
                append_str(out, name);
                append_str(out, " eq ");
                a.append_text(out);
            },
            Filter::NotEqual(name, a) => {
                append_str(out, name);
                append_str(out, " ne ");
                a.append_text(out);
            },
            Filter::GreaterThan(name, a) => {
                append_str(out, name);
                append_str(out, " gt ");
                a.append_text(out);
            },
            Filter::GreaterOrEqual(name, a) => {
                append_str(out, name);
                append_str(out, " ge ");
                a.append_text(out);
            },
            Filter::LessThan(name, a) => {
                append_str(out, name);
                append_str(out, " lt ");
                a.append_text(out);
            },
            Filter::LessOrEqual(name, a) => {
                append_str(out, name);
                append_str(out, " le ");
                a.append_text(out);
            },
            Filter::Contains(name, a) => {
                append_str(out, "contains(");
                append_str(out, name);
                append_str(out, ",");
                a.append_text(out);
                append_str(out, ")");
            },
            Filter::StartsWith(name, a) => {
                append_str(out, "startswith(");
                append_str(out, name);
                append_str(out, ",");
                a.append_text(out);
                append_str(out, ")");
            },
            Filter::EndsWith(name, a) => {
                append_str(out, "endswith(");
                append_str(out, name);
                append_str(out, ",");
                a.append_text(out);
                append_str(out, ")");
            },
            Filter::And(left, right) => {
                left.append_text(out);
                append_str(out, " and ");
                right.append_text(out);
            },
            Filter::Or(left, right) => {
                left.append_text(out);
                append_str(out, " or ");
                right.append_text(out);
            },
            Filter::Not(inner) => {
                append_str(out, "not ");
                inner.append_text(out);
            },
        }
        assert(final(out)@ =~= old(out)@ + self.text());
    }

    /// This tree's expression text as a string.
    pub fn to_string(&self) -> (r: String)
        ensures
            r@ == self.text(),
    {
        let mut out = String::new();
        self.append_text(&mut out);
        out
    }
}

} // verus!
