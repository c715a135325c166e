//! A 128-bit globally unique identifier, held as its plain bit value so
//! that the textual forms the wire protocol needs can be rendered and
//! reasoned about directly.

use vstd::prelude::*;

use crate::text::{append_hex_pad, hex_pad, lemma_hex_pad_injective, lemma_hex_pad_len, pow16};

verus! {

/// A 128-bit identifier for an entity record, a batch or a changeset.
///
/// `bits` holds the identifier with its first textual byte in the most
/// significant position, so the hexadecimal rendering of `bits` is the
/// identifier's canonical text.
#[derive(Clone, Copy, Debug, PartialEq, Eq, Structural)]
pub struct Guid {
    pub bits: u128,
}

impl Guid {
    /// The simple form: 32 hexadecimal digits, lower case, no hyphens.
    pub open spec fn simple_text(self) -> Seq<char> {
        hex_pad(self.bits as nat, 32)
    }

    /// The canonical hyphenated form: five lower-case hexadecimal groups
    /// of 8, 4, 4, 4 and 12 digits.
    pub open spec fn hyphenated_text(self) -> Seq<char> {
        hex_pad((self.bits >> 96) as nat, 8) + seq!['-'] + hex_pad(
            ((self.bits >> 80) & 0xFFFF) as nat,
            4,
        ) + seq!['-'] + hex_pad(((self.bits >> 64) & 0xFFFF) as nat, 4) + seq!['-'] + hex_pad(
            ((self.bits >> 48) & 0xFFFF) as nat,
            4,
        ) + seq!['-'] + hex_pad((self.bits & 0xFFFF_FFFF_FFFF) as nat, 12)
    }

    pub fn new(bits: u128) -> (g: Self)
        ensures
            g.bits == bits,
    {
        Guid { bits }
    }

    /// Relies on `uuid::Uuid::new_v4`: returns a random identifier with
    /// the version nibble set to 4 and the two variant bits set to `10`,
    /// all other bits random.
    #[verifier::external_body]
    pub(crate) fn random() -> (g: Self)
        ensures
            g.bits & 0xF000_0000_0000_0000_0000 == 0x4000_0000_0000_0000_0000,
            g.bits & 0xC000_0000_0000_0000 == 0x8000_0000_0000_0000,
    {
        Guid { bits: uuid::Uuid::new_v4().as_u128() }
    }

    /// Appends the simple form of this identifier.
    pub(crate) fn append_simple(&self, out: &mut String)
        ensures
            final(out)@ == old(out)@ + self.simple_text(),
    {
        append_hex_pad(out, self.bits, 32);
    }

    /// Appends the hyphenated form of this identifier.
    pub(crate) fn append_hyphenated(&self, out: &mut String)
        ensures
            final(out)@ == old(out)@ + self.hyphenated_text(),
    {
        append_hex_pad(out, self.bits >> 96, 8);
        crate::text::append_char(out, '-');
        append_hex_pad(out, (self.bits >> 80) & 0xFFFF, 4);
        crate::text::append_char(out, '-');
        append_hex_pad(out, (self.bits >> 64) & 0xFFFF, 4);
        crate::text::append_char(out, '-');
        append_hex_pad(out, (self.bits >> 48) & 0xFFFF, 4);
        crate::text::append_char(out, '-');
        append_hex_pad(out, self.bits & 0xFFFF_FFFF_FFFF, 12);
        assert(final(out)@ =~= old(out)@ + self.hyphenated_text());
    }

    /// The simple form as a string.
    pub fn to_simple_string(&self) -> (r: String)
        ensures
            r@ == self.simple_text(),
    {
        let mut out = String::new();
        self.append_simple(&mut out);
        out
    }

    /// Law: the simple rendering determines the identifier; two
    /// identifiers with the same 32-digit text are the same value.
    pub proof fn lemma_simple_text_injective(a: Guid, b: Guid)
        requires
            a.simple_text() == b.simple_text(),
        ensures
            a == b,
    {
        reveal_with_fuel(pow16, 33);
        lemma_hex_pad_injective(a.bits as nat, b.bits as nat, 32);
    }

    /// Law: the hyphenated rendering determines the identifier; two
    /// identifiers with the same hyphenated text are the same value.
    pub proof fn lemma_hyphenated_text_injective(a: Guid, b: Guid)
        requires
            a.hyphenated_text() == b.hyphenated_text(),
        ensures
            a == b,
    {
        reveal_with_fuel(pow16, 13);
        let t1 = a.hyphenated_text();
        let t2 = b.hyphenated_text();
        let a1 = (a.bits >> 96) as nat;
        let a2 = ((a.bits >> 80) & 0xFFFF) as nat;
        let a3 = ((a.bits >> 64) & 0xFFFF) as nat;
        let a4 = ((a.bits >> 48) & 0xFFFF) as nat;
        let a5 = (a.bits & 0xFFFF_FFFF_FFFF) as nat;
        let b1 = (b.bits >> 96) as nat;
        let b2 = ((b.bits >> 80) & 0xFFFF) as nat;
        let b3 = ((b.bits >> 64) & 0xFFFF) as nat;
        let b4 = ((b.bits >> 48) & 0xFFFF) as nat;
        let b5 = (b.bits & 0xFFFF_FFFF_FFFF) as nat;
        lemma_hex_pad_len(a1, 8);
        lemma_hex_pad_len(a2, 4);
        lemma_hex_pad_len(a3, 4);
        lemma_hex_pad_len(a4, 4);
        lemma_hex_pad_len(a5, 12);
        lemma_hex_pad_len(b1, 8);
        lemma_hex_pad_len(b2, 4);
        lemma_hex_pad_len(b3, 4);
        lemma_hex_pad_len(b4, 4);
        lemma_hex_pad_len(b5, 12);
        assert(hex_pad(a1, 8) =~= t1.subrange(0, 8));
        assert(hex_pad(a2, 4) =~= t1.subrange(9, 13));
        assert(hex_pad(a3, 4) =~= t1.subrange(14, 18));
        assert(hex_pad(a4, 4) =~= t1.subrange(19, 23));
        assert(hex_pad(a5, 12) =~= t1.subrange(24, 36));
        assert(hex_pad(b1, 8) =~= t2.subrange(0, 8));
        assert(hex_pad(b2, 4) =~= t2.subrange(9, 13));
        assert(hex_pad(b3, 4) =~= t2.subrange(14, 18));
        assert(hex_pad(b4, 4) =~= t2.subrange(19, 23));
        assert(hex_pad(b5, 12) =~= t2.subrange(24, 36));
        let x = a.bits;
        let y = b.bits;
        assert(x >> 96 <= 0xFFFF_FFFF) by (bit_vector);
        assert((x >> 80) & 0xFFFF <= 0xFFFF) by (bit_vector);
        assert((x >> 64) & 0xFFFF <= 0xFFFF) by (bit_vector);
        assert((x >> 48) & 0xFFFF <= 0xFFFF) by (bit_vector);
        assert(x & 0xFFFF_FFFF_FFFF <= 0xFFFF_FFFF_FFFF) by (bit_vector);
        assert(y >> 96 <= 0xFFFF_FFFF) by (bit_vector);
        assert((y >> 80) & 0xFFFF <= 0xFFFF) by (bit_vector);
        assert((y >> 64) & 0xFFFF <= 0xFFFF) by (bit_vector);
        assert((y >> 48) & 0xFFFF <= 0xFFFF) by (bit_vector);
        assert(y & 0xFFFF_FFFF_FFFF <= 0xFFFF_FFFF_FFFF) by (bit_vector);
        lemma_hex_pad_injective(a1, b1, 8);
        lemma_hex_pad_injective(a2, b2, 4);
        lemma_hex_pad_injective(a3, b3, 4);
        lemma_hex_pad_injective(a4, b4, 4);
        lemma_hex_pad_injective(a5, b5, 12);
        assert(x == y) by (bit_vector)
            requires
                x >> 96 == y >> 96,
                (x >> 80) & 0xFFFF == (y >> 80) & 0xFFFF,
                (x >> 64) & 0xFFFF == (y >> 64) & 0xFFFF,
                (x >> 48) & 0xFFFF == (y >> 48) & 0xFFFF,
                x & 0xFFFF_FFFF_FFFF == y & 0xFFFF_FFFF_FFFF,
        ;
    }

    /// The hyphenated form as a string.
    pub fn to_hyphenated_string(&self) -> (r: String)
        ensures
            r@ == self.hyphenated_text(),
    {
        let mut out = String::new();
        self.append_hyphenated(&mut out);
        out
    }
}

} // verus!
