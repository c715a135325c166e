//! A UTC instant held as plain calendar and clock fields, so that its
//! textual rendering is a function the verifier can follow.

use vstd::prelude::*;

use crate::text::{
    append_char, append_dec_pad, append_str, dec_pad, lemma_dec_pad_injective, lemma_dec_pad_len,
    pow10,
};

verus! {

/// A UTC instant: calendar date, time of day, and sub-second nanoseconds.
///
/// The fields are plain numbers; `wf` says when they describe a value the
/// renderings below are faithful for (four-digit year, in-range clock
/// fields, no leap second).
#[derive(Clone, Copy, Debug, PartialEq, Eq, Structural)]
pub struct DateTime {
    pub year: u16,
    pub month: u8,
    pub day: u8,
    pub hour: u8,
    pub minute: u8,
    pub second: u8,
    pub nanos: u32,
}

impl DateTime {
    /// Field ranges under which the rendering is the canonical one.
    pub open spec fn wf(self) -> bool {
        &&& self.year <= 9999
        &&& 1 <= self.month <= 12
        &&& 1 <= self.day <= 31
        &&& self.hour < 24
        &&& self.minute < 60
        &&& self.second < 60
        &&& self.nanos < 1_000_000_000
    }

    /// The sub-second part: empty for zero nanoseconds, otherwise a dot
    /// and the shortest of 3, 6 or 9 digits that loses nothing.
    pub open spec fn frac_text(self) -> Seq<char> {
        if self.nanos == 0 {
            Seq::empty()
        } else if self.nanos % 1_000_000 == 0 {
            seq!['.'] + dec_pad((self.nanos / 1_000_000) as nat, 3)
        } else if self.nanos % 1_000 == 0 {
            seq!['.'] + dec_pad((self.nanos / 1_000) as nat, 6)
        } else {
            seq!['.'] + dec_pad(self.nanos as nat, 9)
        }
    }

    /// The rendering: zero-padded `year-month-day hour:minute:second`,
    /// then the sub-second part, then the UTC designator.
    pub open spec fn text(self) -> Seq<char> {
        dec_pad(self.year as nat, 4) + seq!['-'] + dec_pad(self.month as nat, 2) + seq!['-']
            + dec_pad(self.day as nat, 2) + seq![' '] + dec_pad(self.hour as nat, 2) + seq![':']
            + dec_pad(self.minute as nat, 2) + seq![':'] + dec_pad(self.second as nat, 2)
            + self.frac_text() + " UTC"@
    }

    /// Builds an instant, accepting exactly the field values `wf` allows.
    pub fn new(year: u16, month: u8, day: u8, hour: u8, minute: u8, second: u8, nanos: u32) -> (r:
        Option<Self>)
        ensures
            match r {
                Some(d) => {
                    &&& d.wf()
                    &&& d == (DateTime { year, month, day, hour, minute, second, nanos })
                },
                None => !(DateTime { year, month, day, hour, minute, second, nanos }).wf(),
            },
    {
        if year <= 9999 && 1 <= month && month <= 12 && 1 <= day && day <= 31 && hour < 24
            && minute < 60 && second < 60 && nanos < 1_000_000_000 {
            Some(DateTime { year, month, day, hour, minute, second, nanos })
        } else {
            None
        }
    }

    /// Law: within the well-formed field ranges, the rendering
    /// determines the instant; two instants with the same text are the
    /// same value.
    #[verifier::rlimit(90)]
    #[verifier::spinoff_prover]
    pub proof fn lemma_text_injective(a: DateTime, b: DateTime)
        requires
            a.wf(),
            b.wf(),
            a.text() == b.text(),
        ensures
            a == b,
    {
        reveal_with_fuel(pow10, 10);
        reveal_strlit(" UTC");
        let t1 = a.text();
        let t2 = b.text();
        lemma_dec_pad_len(a.year as nat, 4);
        lemma_dec_pad_len(a.month as nat, 2);
        lemma_dec_pad_len(a.day as nat, 2);
        lemma_dec_pad_len(a.hour as nat, 2);
        lemma_dec_pad_len(a.minute as nat, 2);
        lemma_dec_pad_len(a.second as nat, 2);
        lemma_dec_pad_len(b.year as nat, 4);
        lemma_dec_pad_len(b.month as nat, 2);
        lemma_dec_pad_len(b.day as nat, 2);
        lemma_dec_pad_len(b.hour as nat, 2);
        lemma_dec_pad_len(b.minute as nat, 2);
        lemma_dec_pad_len(b.second as nat, 2);
        lemma_dec_pad_len((a.nanos / 1_000_000) as nat, 3);
        lemma_dec_pad_len((a.nanos / 1_000) as nat, 6);
        lemma_dec_pad_len(a.nanos as nat, 9);
        lemma_dec_pad_len((b.nanos / 1_000_000) as nat, 3);
        lemma_dec_pad_len((b.nanos / 1_000) as nat, 6);
        lemma_dec_pad_len(b.nanos as nat, 9);
        assert(dec_pad(a.year as nat, 4) =~= t1.subrange(0, 4));
        assert(dec_pad(a.month as nat, 2) =~= t1.subrange(5, 7));
        assert(dec_pad(a.day as nat, 2) =~= t1.subrange(8, 10));
        assert(dec_pad(a.hour as nat, 2) =~= t1.subrange(11, 13));
        assert(dec_pad(a.minute as nat, 2) =~= t1.subrange(14, 16));
        assert(dec_pad(a.second as nat, 2) =~= t1.subrange(17, 19));
        assert(dec_pad(b.year as nat, 4) =~= t2.subrange(0, 4));
        assert(dec_pad(b.month as nat, 2) =~= t2.subrange(5, 7));
        assert(dec_pad(b.day as nat, 2) =~= t2.subrange(8, 10));
        assert(dec_pad(b.hour as nat, 2) =~= t2.subrange(11, 13));
        assert(dec_pad(b.minute as nat, 2) =~= t2.subrange(14, 16));
        assert(dec_pad(b.second as nat, 2) =~= t2.subrange(17, 19));
        lemma_dec_pad_injective(a.year as nat, b.year as nat, 4);
        lemma_dec_pad_injective(a.month as nat, b.month as nat, 2);
        lemma_dec_pad_injective(a.day as nat, b.day as nat, 2);
        lemma_dec_pad_injective(a.hour as nat, b.hour as nat, 2);
        lemma_dec_pad_injective(a.minute as nat, b.minute as nat, 2);
        lemma_dec_pad_injective(a.second as nat, b.second as nat, 2);
        let fa = a.frac_text();
        let fb = b.frac_text();
        assert(t1.len() == 19 + fa.len() + 4);
        assert(t2.len() == 19 + fb.len() + 4);
        assert(fa.len() == fb.len());
        assert(fa =~= t1.subrange(19, 19 + fa.len() as int));
        assert(fb =~= t2.subrange(19, 19 + fb.len() as int));
        assert(fa == fb);
        if a.nanos == 0 {
            assert(b.nanos == 0);
        } else if a.nanos % 1_000_000 == 0 {
            assert(fa.len() == 4);
            assert(b.nanos != 0 && b.nanos % 1_000_000 == 0);
            assert(dec_pad((a.nanos / 1_000_000) as nat, 3) =~= fa.subrange(1, 4));
            assert(dec_pad((b.nanos / 1_000_000) as nat, 3) =~= fb.subrange(1, 4));
            lemma_dec_pad_injective((a.nanos / 1_000_000) as nat, (b.nanos / 1_000_000) as nat, 3);
            let na = a.nanos;
            let nb = b.nanos;
            assert(na == nb) by (nonlinear_arith)
                requires
                    na % 1_000_000 == 0,
                    nb % 1_000_000 == 0,
                    na / 1_000_000 == nb / 1_000_000,
            ;
        } else if a.nanos % 1_000 == 0 {
            assert(fa.len() == 7);
            assert(b.nanos != 0 && b.nanos % 1_000_000 != 0 && b.nanos % 1_000 == 0);
            assert(dec_pad((a.nanos / 1_000) as nat, 6) =~= fa.subrange(1, 7));
            assert(dec_pad((b.nanos / 1_000) as nat, 6) =~= fb.subrange(1, 7));
            lemma_dec_pad_injective((a.nanos / 1_000) as nat, (b.nanos / 1_000) as nat, 6);
            let na = a.nanos;
            let nb = b.nanos;
            assert(na == nb) by (nonlinear_arith)
                requires
                    na % 1_000 == 0,
                    nb % 1_000 == 0,
                    na / 1_000 == nb / 1_000,
            ;
        } else {
            assert(fa.len() == 10);
            assert(b.nanos != 0 && b.nanos % 1_000_000 != 0 && b.nanos % 1_000 != 0);
            assert(dec_pad(a.nanos as nat, 9) =~= fa.subrange(1, 10));
            assert(dec_pad(b.nanos as nat, 9) =~= fb.subrange(1, 10));
            lemma_dec_pad_injective(a.nanos as nat, b.nanos as nat, 9);
        }
    }

    /// Appends the rendering of this instant.
    pub(crate) fn append_text(&self, out: &mut String)
        ensures
            final(out)@ == old(out)@ + self.text(),
    {
        append_dec_pad(out, self.year as u64, 4);
        append_char(out, '-');
        append_dec_pad(out, self.month as u64, 2);
        append_char(out, '-');
        append_dec_pad(out, self.day as u64, 2);
        append_char(out, ' ');
        append_dec_pad(out, self.hour as u64, 2);
        append_char(out, ':');
        append_dec_pad(out, self.minute as u64, 2);
        append_char(out, ':');
        append_dec_pad(out, self.second as u64, 2);
        if self.nanos != 0 {
            append_char(out, '.');
            if self.nanos % 1_000_000 == 0 {
                append_dec_pad(out, (self.nanos / 1_000_000) as u64, 3);
            } else if self.nanos % 1_000 == 0 {
                append_dec_pad(out, (self.nanos / 1_000) as u64, 6);
            } else {
                append_dec_pad(out, self.nanos as u64, 9);
            }
        }
        append_str(out, " UTC");
        assert(final(out)@ =~= old(out)@ + self.text());
    }

    /// The rendering as a string.
    pub fn to_text_string(&self) -> (r: String)
        ensures
            r@ == self.text(),
    {
        let mut out = String::new();
        self.append_text(&mut out);
        out
    }
}

} // verus!
