//! The bit-set model shared by the flag types of the library.
//!
//! A flag set is a `u32`; a flag is a value of the same type, usually with a
//! single bit. `contains` asks for every bit of a non-empty flag, `intersects`
//! for at least one.
use vstd::prelude::*;

verus! {

/// Every bit of `other` is set in `bits`, and `other` is not empty.
pub open spec fn bits_contain(bits: u32, other: u32) -> bool {
    (bits & other) == other && other != 0
}

/// `bits` and `other` share at least one bit.
pub open spec fn bits_intersect(bits: u32, other: u32) -> bool {
    (bits & other) != 0
}

/// Inserting a non-empty flag makes the set contain it, and keeps every flag
/// the set contained before.
pub proof fn lemma_insert_contains(bits: u32, other: u32, kept: u32)
    requires
        other != 0,
    ensures
        bits_contain(bits | other, other),
        bits_contain(bits, kept) ==> bits_contain(bits | other, kept),
{
    assert((bits | other) & other == other) by (bit_vector);
    assert(((bits & kept) == kept) ==> (((bits | other) & kept) == kept)) by (bit_vector);
}

/// After removing a flag, the set shares no bit with it, and keeps every flag
/// that shares no bit with the removed one.
pub proof fn lemma_remove_disjoint(bits: u32, other: u32, kept: u32)
    ensures
        !bits_intersect(bits & !other, other),
        bits_contain(bits, kept) && !bits_intersect(kept, other) ==> bits_contain(
            bits & !other,
            kept,
        ),
{
    assert((bits & !other) & other == 0) by (bit_vector);
    assert(((bits & kept) == kept && (kept & other) == 0) ==> (((bits & !other) & kept) == kept))
        by (bit_vector);
}

/// Toggling the same flag twice gives the set back.
pub proof fn lemma_toggle_twice(bits: u32, other: u32)
    ensures
        (bits ^ other) ^ other == bits,
{
    assert((bits ^ other) ^ other == bits) by (bit_vector);
}

/// Complementing twice gives the set back.
pub proof fn lemma_not_not(bits: u32)
    ensures
        !(!bits) == bits,
{
    assert(!(!bits) == bits) by (bit_vector);
}

/// A set that contains a flag shares a bit with it.
pub proof fn lemma_contains_intersects(bits: u32, other: u32)
    ensures
        bits_contain(bits, other) ==> bits_intersect(bits, other),
{
}

/// The empty flag is contained in no set, and intersects no set.
pub proof fn lemma_empty_flag(bits: u32)
    ensures
        !bits_contain(bits, 0),
        !bits_intersect(bits, 0),
{
    assert(bits & 0 == 0) by (bit_vector);
}

/// Every non-empty set contains itself.
pub proof fn lemma_contains_self(bits: u32)
    requires
        bits != 0,
    ensures
        bits_contain(bits, bits),
{
    assert(bits & bits == bits) by (bit_vector);
}

/// Two sets made of distinct single bits contain each of their members and
/// nothing else of the given flags.
pub proof fn lemma_single_bits(a: u32, b: u32)
    requires
        a == 1 || a == 2 || a == 4,
        b == 1 || b == 2 || b == 4,
    ensures
        bits_contain(a | b, a),
        bits_contain(a | b, b),
        forall|c: u32|
            (c == 1 || c == 2 || c == 4) && c != a && c != b ==> !bits_intersect(#[trigger] (a | b), c),
{
    assert(1u32 | 1u32 == 1u32) by (bit_vector);
    assert(1u32 | 2u32 == 3u32) by (bit_vector);
    assert(1u32 | 4u32 == 5u32) by (bit_vector);
    assert(2u32 | 1u32 == 3u32) by (bit_vector);
    assert(2u32 | 2u32 == 2u32) by (bit_vector);
    assert(2u32 | 4u32 == 6u32) by (bit_vector);
    assert(4u32 | 1u32 == 5u32) by (bit_vector);
    assert(4u32 | 2u32 == 6u32) by (bit_vector);
    assert(4u32 | 4u32 == 4u32) by (bit_vector);
    assert(3u32 & 1u32 == 1u32 && 3u32 & 2u32 == 2u32 && 3u32 & 4u32 == 0u32) by (bit_vector);
    assert(5u32 & 1u32 == 1u32 && 5u32 & 4u32 == 4u32 && 5u32 & 2u32 == 0u32) by (bit_vector);
    assert(6u32 & 2u32 == 2u32 && 6u32 & 4u32 == 4u32 && 6u32 & 1u32 == 0u32) by (bit_vector);
    assert(1u32 & 1u32 == 1u32 && 1u32 & 2u32 == 0u32 && 1u32 & 4u32 == 0u32) by (bit_vector);
    assert(2u32 & 2u32 == 2u32 && 2u32 & 1u32 == 0u32 && 2u32 & 4u32 == 0u32) by (bit_vector);
    assert(4u32 & 4u32 == 4u32 && 4u32 & 1u32 == 0u32 && 4u32 & 2u32 == 0u32) by (bit_vector);
}

} // verus!
