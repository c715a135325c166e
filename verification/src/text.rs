//! Text-building primitives shared by the query serializer and the batch
//! encoder: appending onto a `String`, and rendering integers as decimal
//! or fixed-width text.

use vstd::prelude::*;

verus! {

/// Relies on `String::push_str`: appends the given slice onto the end of
/// the string.
#[verifier::external_body]
pub(crate) fn append_str(out: &mut String, s: &str)
    ensures
        final(out)@ == old(out)@ + s@,
{
    out.push_str(s);
}

/// Relies on `String::clear`: empties the string.
#[verifier::external_body]
pub(crate) fn clear_str(out: &mut String)
    ensures
        final(out)@ == Seq::<char>::empty(),
{
    out.clear();
}

/// Relies on `String::push`: appends the given character onto the end of
/// the string.
#[verifier::external_body]
pub(crate) fn append_char(out: &mut String, c: char)
    ensures
        final(out)@ == old(out)@ + seq![c],
{
    out.push(c);
}

/// The character for one decimal digit.
pub open spec fn digit_char(d: nat) -> char {
    if d == 0 {
        '0'
    } else if d == 1 {
        '1'
    } else if d == 2 {
        '2'
    } else if d == 3 {
        '3'
    } else if d == 4 {
        '4'
    } else if d == 5 {
        '5'
    } else if d == 6 {
        '6'
    } else if d == 7 {
        '7'
    } else if d == 8 {
        '8'
    } else {
        '9'
    }
}

/// The shortest decimal rendering of a natural number, most significant
/// digit first.
pub open spec fn dec_digits(n: nat) -> Seq<char>
    decreases n,
{
    if n < 10 {
        seq![digit_char(n)]
    } else {
        dec_digits(n / 10) + seq![digit_char(n % 10)]
    }
}

/// The decimal rendering of a signed number: a minus sign for negative
/// values, then the digits of the magnitude.
pub open spec fn int_text(i: int) -> Seq<char> {
    if i < 0 {
        seq!['-'] + dec_digits((-i) as nat)
    } else {
        dec_digits(i as nat)
    }
}

/// The lowest `w` decimal digits of a number, zero-padded to width `w`.
pub open spec fn dec_pad(n: nat, w: nat) -> Seq<char>
    decreases w,
{
    if w == 0 {
        Seq::empty()
    } else {
        dec_pad(n / 10, (w - 1) as nat) + seq![digit_char(n % 10)]
    }
}

/// The character for one hexadecimal digit, lower case.
pub open spec fn hex_char(d: nat) -> char {
    if d < 10 {
        digit_char(d)
    } else if d == 10 {
        'a'
    } else if d == 11 {
        'b'
    } else if d == 12 {
        'c'
    } else if d == 13 {
        'd'
    } else if d == 14 {
        'e'
    } else {
        'f'
    }
}

/// The lowest `w` hexadecimal digits of a number, zero-padded to width
/// `w`, lower case.
pub open spec fn hex_pad(n: nat, w: nat) -> Seq<char>
    decreases w,
{
    if w == 0 {
        Seq::empty()
    } else {
        hex_pad(n / 16, (w - 1) as nat) + seq![hex_char(n % 16)]
    }
}

fn digit_to_char(d: u8) -> (c: char)
    requires
        d < 10,
    ensures
        c == digit_char(d as nat),
{
    if d == 0 {
        '0'
    } else if d == 1 {
        '1'
    } else if d == 2 {
        '2'
    } else if d == 3 {
        '3'
    } else if d == 4 {
        '4'
    } else if d == 5 {
        '5'
    } else if d == 6 {
        '6'
    } else if d == 7 {
        '7'
    } else if d == 8 {
        '8'
    } else {
        '9'
    }
}

fn hex_to_char(d: u8) -> (c: char)
    requires
        d < 16,
    ensures
        c == hex_char(d as nat),
{
    if d < 10 {
        digit_to_char(d)
    } else if d == 10 {
        'a'
    } else if d == 11 {
        'b'
    } else if d == 12 {
        'c'
    } else if d == 13 {
        'd'
    } else if d == 14 {
        'e'
    } else {
        'f'
    }
}

/// Whether a character is a decimal digit.
pub open spec fn is_dec_digit(c: char) -> bool {
    c == '0' || c == '1' || c == '2' || c == '3' || c == '4' || c == '5' || c == '6' || c == '7'
        || c == '8' || c == '9'
}

/// Ten to the given power.
pub open spec fn pow10(w: nat) -> nat
    decreases w,
{
    if w == 0 {
        1
    } else {
        10 * pow10((w - 1) as nat)
    }
}

/// Sixteen to the given power.
pub open spec fn pow16(w: nat) -> nat
    decreases w,
{
    if w == 0 {
        1
    } else {
        16 * pow16((w - 1) as nat)
    }
}

/// A decimal rendering is never empty, and has at least two digits for
/// numbers of at least ten.
pub proof fn lemma_dec_digits_len(n: nat)
    ensures
        dec_digits(n).len() >= 1,
        n >= 10 ==> dec_digits(n).len() >= 2,
    decreases n,
{
    if n >= 10 {
        lemma_dec_digits_len(n / 10);
    }
}

/// Every character of a decimal rendering is a digit.
pub proof fn lemma_dec_digits_are_digits(n: nat)
    ensures
        forall|k: int| 0 <= k < dec_digits(n).len() ==> is_dec_digit(#[trigger] dec_digits(n)[k]),
    decreases n,
{
    if n < 10 {
        assert(dec_digits(n) == seq![digit_char(n)]);
        assert(is_dec_digit(digit_char(n)));
    } else {
        lemma_dec_digits_are_digits(n / 10);
        let s = dec_digits(n / 10);
        assert(dec_digits(n) == s + seq![digit_char(n % 10)]);
        assert forall|k: int| 0 <= k < dec_digits(n).len() implies is_dec_digit(
            #[trigger] dec_digits(n)[k],
        ) by {
            if k < s.len() {
                assert(dec_digits(n)[k] == s[k]);
            } else {
                assert(dec_digits(n)[k] == digit_char(n % 10));
            }
        }
    }
}

/// Distinct numbers have distinct decimal renderings.
pub proof fn lemma_dec_digits_injective(n: nat, m: nat)
    requires
        dec_digits(n) == dec_digits(m),
    ensures
        n == m,
    decreases n,
{
    lemma_dec_digits_len(n);
    lemma_dec_digits_len(m);
    if n < 10 && m < 10 {
        assert(dec_digits(n)[0] == digit_char(n));
        assert(dec_digits(m)[0] == digit_char(m));
    } else if n >= 10 && m >= 10 {
        let s1 = dec_digits(n / 10);
        let s2 = dec_digits(m / 10);
        assert((s1 + seq![digit_char(n % 10)]).drop_last() =~= s1);
        assert((s2 + seq![digit_char(m % 10)]).drop_last() =~= s2);
        assert((s1 + seq![digit_char(n % 10)]).last() == digit_char(n % 10));
        assert((s2 + seq![digit_char(m % 10)]).last() == digit_char(m % 10));
        lemma_dec_digits_injective(n / 10, m / 10);
    } else if n < 10 {
        assert(dec_digits(m).len() >= 2);
        assert(false);
    } else {
        assert(dec_digits(n).len() >= 2);
        assert(false);
    }
}

/// A zero-padded decimal rendering has exactly its width.
pub proof fn lemma_dec_pad_len(n: nat, w: nat)
    ensures
        dec_pad(n, w).len() == w,
    decreases w,
{
    if w > 0 {
        lemma_dec_pad_len(n / 10, (w - 1) as nat);
    }
}

/// Below the width's bound, distinct numbers have distinct zero-padded
/// decimal renderings.
pub proof fn lemma_dec_pad_injective(n: nat, m: nat, w: nat)
    requires
        dec_pad(n, w) == dec_pad(m, w),
        n < pow10(w),
        m < pow10(w),
    ensures
        n == m,
    decreases w,
{
    if w == 0 {
        assert(n == 0 && m == 0);
    } else {
        let s1 = dec_pad(n / 10, (w - 1) as nat);
        let s2 = dec_pad(m / 10, (w - 1) as nat);
        assert((s1 + seq![digit_char(n % 10)]).drop_last() =~= s1);
        assert((s2 + seq![digit_char(m % 10)]).drop_last() =~= s2);
        assert((s1 + seq![digit_char(n % 10)]).last() == digit_char(n % 10));
        assert((s2 + seq![digit_char(m % 10)]).last() == digit_char(m % 10));
        assert(n % 10 == m % 10);
        assert(n / 10 < pow10((w - 1) as nat)) by (nonlinear_arith)
            requires
                n < pow10(w),
                pow10(w) == 10 * pow10((w - 1) as nat),
        ;
        assert(m / 10 < pow10((w - 1) as nat)) by (nonlinear_arith)
            requires
                m < pow10(w),
                pow10(w) == 10 * pow10((w - 1) as nat),
        ;
        lemma_dec_pad_injective(n / 10, m / 10, (w - 1) as nat);
    }
}

/// A zero-padded hexadecimal rendering has exactly its width.
pub proof fn lemma_hex_pad_len(n: nat, w: nat)
    ensures
        hex_pad(n, w).len() == w,
    decreases w,
{
    if w > 0 {
        lemma_hex_pad_len(n / 16, (w - 1) as nat);
    }
}

/// Below the width's bound, distinct numbers have distinct zero-padded
/// hexadecimal renderings.
pub proof fn lemma_hex_pad_injective(n: nat, m: nat, w: nat)
    requires
        hex_pad(n, w) == hex_pad(m, w),
        n < pow16(w),
        m < pow16(w),
    ensures
        n == m,
    decreases w,
{
    if w == 0 {
        assert(n == 0 && m == 0);
    } else {
        let s1 = hex_pad(n / 16, (w - 1) as nat);
        let s2 = hex_pad(m / 16, (w - 1) as nat);
        assert((s1 + seq![hex_char(n % 16)]).drop_last() =~= s1);
        assert((s2 + seq![hex_char(m % 16)]).drop_last() =~= s2);
        assert((s1 + seq![hex_char(n % 16)]).last() == hex_char(n % 16));
        assert((s2 + seq![hex_char(m % 16)]).last() == hex_char(m % 16));
        assert(n % 16 == m % 16);
        assert(n / 16 < pow16((w - 1) as nat)) by (nonlinear_arith)
            requires
                n < pow16(w),
                pow16(w) == 16 * pow16((w - 1) as nat),
        ;
        assert(m / 16 < pow16((w - 1) as nat)) by (nonlinear_arith)
            requires
                m < pow16(w),
                pow16(w) == 16 * pow16((w - 1) as nat),
        ;
        lemma_hex_pad_injective(n / 16, m / 16, (w - 1) as nat);
    }
}

/// A signed decimal rendering starts with a digit exactly when the
/// number is not negative, and determines the number.
pub proof fn lemma_int_text_injective(i: int, j: int)
    requires
        int_text(i) == int_text(j),
    ensures
        i == j,
{
    lemma_dec_digits_len((if i < 0 { -i } else { i }) as nat);
    lemma_dec_digits_len((if j < 0 { -j } else { j }) as nat);
    lemma_dec_digits_are_digits((if i < 0 { -i } else { i }) as nat);
    lemma_dec_digits_are_digits((if j < 0 { -j } else { j }) as nat);
    if i < 0 && j < 0 {
        let s1 = dec_digits((-i) as nat);
        let s2 = dec_digits((-j) as nat);
        assert(s1 =~= (seq!['-'] + s1).subrange(1, (seq!['-'] + s1).len() as int));
        assert(s2 =~= (seq!['-'] + s2).subrange(1, (seq!['-'] + s2).len() as int));
        lemma_dec_digits_injective((-i) as nat, (-j) as nat);
    } else if i >= 0 && j >= 0 {
        lemma_dec_digits_injective(i as nat, j as nat);
    } else if i < 0 {
        assert(int_text(i)[0] == '-');
        assert(is_dec_digit(int_text(j)[0]));
        assert(false);
    } else {
        assert(int_text(j)[0] == '-');
        assert(is_dec_digit(int_text(i)[0]));
        assert(false);
    }
}

/// Appends the decimal rendering of `n`.
pub(crate) fn append_u64(out: &mut String, n: u64)
    ensures
        final(out)@ == old(out)@ + dec_digits(n as nat),
    decreases n,
{
    if n >= 10 {
        append_u64(out, n / 10);
    }
    append_char(out, digit_to_char((n % 10) as u8));
    assert(final(out)@ =~= old(out)@ + dec_digits(n as nat));
}

/// Appends the decimal rendering of `n`, minus sign included when `n` is
/// negative.
pub(crate) fn append_i64(out: &mut String, n: i64)
    ensures
        final(out)@ == old(out)@ + int_text(n as int),
{
    if n < 0 {
        append_char(out, '-');
        let wide: i128 = n as i128;
        let m: u64 = (-wide) as u64;
        assert(m as int == -(n as int));
        append_u64(out, m);
        assert(final(out)@ =~= old(out)@ + int_text(n as int));
    } else {
        append_u64(out, n as u64);
    }
}

/// Appends the lowest `w` decimal digits of `n`, zero-padded.
pub(crate) fn append_dec_pad(out: &mut String, n: u64, w: usize)
    ensures
        final(out)@ == old(out)@ + dec_pad(n as nat, w as nat),
    decreases w,
{
    if w > 0 {
        append_dec_pad(out, n / 10, w - 1);
        append_char(out, digit_to_char((n % 10) as u8));
    }
    assert(final(out)@ =~= old(out)@ + dec_pad(n as nat, w as nat));
}

/// Appends the lowest `w` hexadecimal digits of `n`, zero-padded, lower
/// case.
pub(crate) fn append_hex_pad(out: &mut String, n: u128, w: usize)
    ensures
        final(out)@ == old(out)@ + hex_pad(n as nat, w as nat),
    decreases w,
{
    if w > 0 {
        append_hex_pad(out, n / 16, w - 1);
        append_char(out, hex_to_char((n % 16) as u8));
    }
    assert(final(out)@ =~= old(out)@ + hex_pad(n as nat, w as nat));
}

} // verus!
