//! Attribute values for use in query filters, and their rendering as
//! OData literal tokens.

use vstd::prelude::*;

use crate::datetime::DateTime;
use crate::guid::Guid;
use crate::text::{
    append_char, append_i64, append_str, int_text, is_dec_digit, lemma_dec_digits_are_digits,
    lemma_int_text_injective,
};

verus! {

/// A value compared against a field inside a query filter.
///
/// The decimal variant carries the number's rendered text: the library
/// holds no floating-point values, so the caller renders the number and
/// the formatter inserts the text unquoted, exactly as given.
pub enum Attribute {
    /// A `null` value.
    Null,
    /// A boolean value, rendered `true` or `false`.
    Boolean(bool),
    /// A 64-bit signed integer.
    Integer(i64),
    /// A decimal number, carried as its rendered text.
    Decimal(String),
    /// A string of characters, rendered between single quotes. The
    /// content is inserted as given: quotes inside it are not escaped.
    String(String),
    /// A date and time expressed as UTC, rendered between single quotes.
    DateTime(DateTime),
    /// A 128-bit identifier, rendered hyphenated between single quotes.
    Uuid(Guid),
}

impl Attribute {
    /// The OData literal token this value renders to.
    pub open spec fn text(self) -> Seq<char> {
        match self {
            Attribute::Null => "null"@,
            Attribute::Boolean(b) => if b {
                "true"@
            } else {
                "false"@
            },
            Attribute::Integer(i) => int_text(i as int),
            Attribute::Decimal(s) => s@,
            Attribute::String(s) => seq!['\''] + s@ + seq!['\''],
            Attribute::DateTime(d) => seq!['\''] + d.text() + seq!['\''],
            Attribute::Uuid(g) => seq!['\''] + g.hyphenated_text() + seq!['\''],
        }
    }

    /// Whether the carried values are in the ranges the renderings are
    /// canonical for; only the date-and-time variant restricts them.
    pub open spec fn wf(self) -> bool {
        match self {
            Attribute::DateTime(d) => d.wf(),
            _ => true,
        }
    }

    /// Whether two values carry the same variant tag.
    pub open spec fn same_variant(a: Attribute, b: Attribute) -> bool {
        match (a, b) {
            (Attribute::Null, Attribute::Null) => true,
            (Attribute::Boolean(_), Attribute::Boolean(_)) => true,
            (Attribute::Integer(_), Attribute::Integer(_)) => true,
            (Attribute::Decimal(_), Attribute::Decimal(_)) => true,
            (Attribute::String(_), Attribute::String(_)) => true,
            (Attribute::DateTime(_), Attribute::DateTime(_)) => true,
            (Attribute::Uuid(_), Attribute::Uuid(_)) => true,
            _ => false,
        }
    }

    /// Law: per variant tag, the rendered literal determines the carried
    /// value — two well-formed values of the same variant with the same
    /// text carry the same content.
    pub proof fn lemma_text_injective_per_variant(a: Attribute, b: Attribute)
        requires
            Attribute::same_variant(a, b),
            a.wf(),
            b.wf(),
            a.text() == b.text(),
        ensures
            match (a, b) {
                (Attribute::Boolean(x), Attribute::Boolean(y)) => x == y,
                (Attribute::Integer(x), Attribute::Integer(y)) => x == y,
                (Attribute::Decimal(x), Attribute::Decimal(y)) => x@ == y@,
                (Attribute::String(x), Attribute::String(y)) => x@ == y@,
                (Attribute::DateTime(x), Attribute::DateTime(y)) => x == y,
                (Attribute::Uuid(x), Attribute::Uuid(y)) => x == y,
                _ => true,
            },
    {
        match (a, b) {
            (Attribute::Boolean(x), Attribute::Boolean(y)) => {
                if x != y {
                    reveal_strlit("true");
                    reveal_strlit("false");
                    assert("true"@.len() == 4);
                    assert("false"@.len() == 5);
                    assert(a.text() == if x {
                        "true"@
                    } else {
                        "false"@
                    });
                    assert(b.text() == if y {
                        "true"@
                    } else {
                        "false"@
                    });
                    assert(false);
                }
            },
            (Attribute::Integer(x), Attribute::Integer(y)) => {
                lemma_int_text_injective(x as int, y as int);
            },
            (Attribute::String(x), Attribute::String(y)) => {
                let t = a.text();
                assert(x@ =~= t.subrange(1, t.len() - 1));
                assert(y@ =~= t.subrange(1, t.len() - 1));
            },
            (Attribute::DateTime(x), Attribute::DateTime(y)) => {
                let t = a.text();
                assert(x.text() =~= t.subrange(1, t.len() - 1));
                assert(y.text() =~= t.subrange(1, t.len() - 1));
                DateTime::lemma_text_injective(x, y);
            },
            (Attribute::Uuid(x), Attribute::Uuid(y)) => {
                let t = a.text();
                assert(x.hyphenated_text() =~= t.subrange(1, t.len() - 1));
                assert(y.hyphenated_text() =~= t.subrange(1, t.len() - 1));
                Guid::lemma_hyphenated_text_injective(x, y);
            },
            _ => {},
        }
    }

    /// Law: the integer variant renders without any type discriminator:
    /// every character of its literal is a digit or the minus sign.
    pub proof fn lemma_integer_text_plain(i: i64)
        ensures
            forall|k: int|
                0 <= k < Attribute::Integer(i).text().len() ==> (#[trigger] Attribute::Integer(
                    i,
                ).text()[k] == '-' || is_dec_digit(Attribute::Integer(i).text()[k])),
    {
        let mag = (if i < 0 {
            -(i as int)
        } else {
            i as int
        }) as nat;
        lemma_dec_digits_are_digits(mag);
        if i < 0 {
            assert forall|k: int| 0 <= k < Attribute::Integer(i).text().len() implies (
            #[trigger] Attribute::Integer(i).text()[k] == '-' || is_dec_digit(
                Attribute::Integer(i).text()[k],
            )) by {
                if k > 0 {
                    assert(Attribute::Integer(i).text()[k] == crate::text::dec_digits(mag)[k - 1]);
                }
            }
        }
    }

    /// Appends this value's literal token.
    pub(crate) fn append_text(&self, out: &mut String)
        ensures
            final(out)@ == old(out)@ + self.text(),
    {
        match self {
            Attribute::Null => {
                append_str(out, "null");
            },
            Attribute::Boolean(b) => {
                if *b {
                    append_str(out, "true");
                } else {
                    append_str(out, "false");
                }
            },
            Attribute::Integer(i) => {
                append_i64(out, *i);
            },
            Attribute::Decimal(s) => {
                append_str(out, s.as_str());
            },
            Attribute::String(s) => {
                append_char(out, '\'');
                append_str(out, s.as_str());
                append_char(out, '\'');
            },
            Attribute::DateTime(d) => {
                append_char(out, '\'');
                d.append_text(out);
                append_char(out, '\'');
            },
            Attribute::Uuid(g) => {
                append_char(out, '\'');
                g.append_hyphenated(out);
                append_char(out, '\'');
            },
        }
        assert(final(out)@ =~= old(out)@ + self.text());
    }

    /// This value's literal token as a string.
    pub fn to_string(&self) -> (r: String)
        ensures
            r@ == self.text(),
    {
        let mut out = String::new();
        self.append_text(&mut out);
        out
    }
}

} // verus!
