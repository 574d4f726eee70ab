//! Bitwise helpers used by the permission checks of the database.
//!
//! A permission mask is a `u32`; bit 0 grants everything, and a flag is
//! held when all of its bits are set in the mask.

use vstd::prelude::*;

verus! {

/// A mask grants a flag when its lowest bit (the all-powerful bit) is set,
/// or when every bit of the flag is set in the mask.
pub open spec fn spec_can(mask: u32, flag: u32) -> bool {
    (mask & 1u32) == 1u32 || (mask & flag) == flag
}

/// Bitwise and.
pub fn and(x: u32, y: u32) -> (r: u32)
    ensures
        r == x & y,
{
    x & y
}

/// Bitwise or.
pub fn or(x: u32, y: u32) -> (r: u32)
    ensures
        r == x | y,
{
    x | y
}

/// Bitwise exclusive or.
pub fn xor(x: u32, y: u32) -> (r: u32)
    ensures
        r == x ^ y,
{
    x ^ y
}

/// Bitwise complement.
pub fn not(x: u32) -> (r: u32)
    ensures
        r == !x,
{
    !x
}

/// Left shift; the shift must be smaller than the width of the word.
pub fn shl(x: u32, shift: u32) -> (r: u32)
    requires
        shift < 32,
    ensures
        r == x << shift,
{
    x << shift
}

/// Logical right shift; the shift must be smaller than the width of the word.
pub fn shr(x: u32, shift: u32) -> (r: u32)
    requires
        shift < 32,
    ensures
        r == x >> shift,
{
    x >> shift
}

/// Does `mask` grant `flag`?
pub fn can(mask: u32, flag: u32) -> (r: bool)
    ensures
        r == spec_can(mask, flag),
{
    (mask & 1) == 1 || (mask & flag) == flag
}

/// Granting a flag (or-ing it into a mask) makes the mask grant it.
pub proof fn lemma_grant_then_can(mask: u32, flag: u32)
    ensures
        spec_can(mask | flag, flag),
{
    assert(((mask | flag) & flag) == flag) by (bit_vector);
}

/// A mask with the all-powerful bit grants every flag.
pub proof fn lemma_admin_can_all(mask: u32, flag: u32)
    requires
        (mask & 1u32) == 1u32,
    ensures
        spec_can(mask, flag),
{
}

/// The empty flag is granted by every mask.
pub proof fn lemma_can_empty_flag(mask: u32)
    ensures
        spec_can(mask, 0u32),
{
    assert((mask & 0u32) == 0u32) by (bit_vector);
}

/// Adding bits to a mask never takes a permission away.
pub proof fn lemma_can_monotonic(mask: u32, extra: u32, flag: u32)
    requires
        spec_can(mask, flag),
    ensures
        spec_can(mask | extra, flag),
{
    assert((mask & 1u32) == 1u32 ==> ((mask | extra) & 1u32) == 1u32) by (bit_vector);
    assert((mask & flag) == flag ==> ((mask | extra) & flag) == flag) by (bit_vector);
}

/// A combined flag is granted exactly when each of its parts is granted.
pub proof fn lemma_can_union(mask: u32, f: u32, g: u32)
    ensures
        spec_can(mask, f | g) == (spec_can(mask, f) && spec_can(mask, g)),
{
    assert(((mask & (f | g)) == (f | g)) == ((mask & f) == f && (mask & g) == g))
        by (bit_vector);
}

/// Revoking a non-empty flag from a mask without the all-powerful bit
/// (or revoking a flag that contains that bit) takes the flag away.
pub proof fn lemma_revoke_then_cannot(mask: u32, flag: u32)
    requires
        (mask & 1u32) == 0u32 || (flag & 1u32) == 1u32,
    ensures
        spec_can(mask & !flag, flag) == (flag == 0u32),
{
    assert(((mask & 1u32) == 0u32 || (flag & 1u32) == 1u32) ==> ((mask & !flag) & 1u32) == 0u32)
        by (bit_vector);
    assert((((mask & !flag) & flag) == flag) == (flag == 0u32)) by (bit_vector);
}

/// Shifting left and back right recovers the bits that were not pushed out.
pub proof fn lemma_shl_shr(x: u32, s: u32)
    requires
        s < 32,
    ensures
        (x << s) >> s == x & (0xffff_ffffu32 >> s),
{
    assert(s < 32 ==> (x << s) >> s == x & (0xffff_ffffu32 >> s)) by (bit_vector);
}

/// Exclusive or with the same value twice is the identity.
pub proof fn lemma_xor_involutive(x: u32, y: u32)
    ensures
        (x ^ y) ^ y == x,
{
    assert((x ^ y) ^ y == x) by (bit_vector);
}

/// De Morgan: the complement of an or is the and of the complements.
pub proof fn lemma_not_or(x: u32, y: u32)
    ensures
        !(x | y) == !x & !y,
{
    assert(!(x | y) == !x & !y) by (bit_vector);
}

} // verus!
