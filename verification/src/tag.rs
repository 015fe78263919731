//! Field/variant tag packing.
//!
//! A single byte encodes which logical field a token occurred in together
//! with a word/stemmed discriminator: bit 7 is the variant flag (clear for
//! an exact word, set for a stemmed form), bits 0 through 6 hold the field
//! identifier.  Callers are responsible for keeping field identifiers below
//! 128; a larger identifier silently overlaps the variant bit.

use vstd::prelude::*;

verus! {

/// Tag byte for an exact word occurrence in the given field: the field
/// identifier itself, variant bit clear.
pub open spec fn word_tag(field: u8) -> u8 {
    field
}

/// Tag byte for a stemmed occurrence in the given field: the field
/// identifier with the variant bit (bit 7) set.
pub open spec fn stemmed_tag(field: u8) -> u8 {
    field | 0x80
}

#[derive(Debug, Clone, Copy, Hash, PartialEq, Eq)]
pub struct TokenType {}

impl TokenType {
    /// Tag for an exact word occurrence: the field identifier unchanged.
    pub fn word(field: u8) -> (r: u8)
        ensures
            r == word_tag(field),
    {
        field
    }

    /// Tag for a stemmed occurrence: the field identifier with bit 7 set.
    pub fn stemmed(field: u8) -> (r: u8)
        ensures
            r == stemmed_tag(field),
    {
        proof {
            assert((1u8 << 7) | field == field | 0x80) by (bit_vector);
        }
        (1 << 7) | field
    }
}

/// For every field identifier in the 7-bit range, the word tag and the
/// stemmed tag differ: the word tag keeps the variant bit clear while the
/// stemmed tag sets it.
pub proof fn lemma_tag_disjoint(field: u8)
    requires
        field < 128,
    ensures
        word_tag(field) != stemmed_tag(field),
        word_tag(field) & 0x80 == 0,
        stemmed_tag(field) & 0x80 != 0,
{
    assert(field < 128 ==> field != (field | 0x80) && field & 0x80 == 0 && (field | 0x80) & 0x80
        != 0) by (bit_vector);
}

} // verus!
