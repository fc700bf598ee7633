//! Bitfield primitives: masked splits, field extraction and single-bit
//! tests on a 32-bit word.  Every category decoder is built from these.

use vstd::prelude::*;

use crate::errors::ParseError;

verus! {

/// A single bit of `w`, as a boolean.
pub open spec fn bit(w: u32, i: u32) -> bool {
    (w >> i) & 1 == 1
}

/// The field of `w` that starts at bit `lo` and is selected by `mask`
/// after the shift.
pub open spec fn field(w: u32, lo: u32, mask: u32) -> u32 {
    (w >> lo) & mask
}

/// A field selected by a mask never exceeds the mask.
pub proof fn lemma_field_bound(w: u32, lo: u32, mask: u32)
    requires
        lo < 32,
    ensures
        (w >> lo) & mask <= mask,
{
    assert((w >> lo) & mask <= mask) by (bit_vector);
}

/// A masked value never exceeds the mask.
pub proof fn lemma_mask_bound(w: u32, mask: u32)
    ensures
        w & mask <= mask,
{
    assert(w & mask <= mask) by (bit_vector);
}

/// Tests the single bit `i` of `value`.
pub fn check_bit(value: u32, i: u32) -> (r: bool)
    requires
        i < 32,
    ensures
        r == bit(value, i),
{
    (value >> i) & 1 == 1
}

/// Extracts the field of `value` that starts at bit `lo` and is selected
/// by `mask` after the shift.
pub fn extract(value: u32, lo: u32, mask: u32) -> (r: u32)
    requires
        lo < 32,
    ensures
        r == field(value, lo, mask),
        r <= mask,
{
    proof {
        lemma_field_bound(value, lo, mask);
    }
    (value >> lo) & mask
}

/// Keeps the bits of `value` selected by `mask`, and fails when any bit
/// outside `mask` is set, carrying exactly those bits.
pub fn check_rest_null_mask(value: u32, mask: u32) -> (r: Result<u32, ParseError>)
    ensures
        value & !mask == 0 ==> r == Ok::<u32, ParseError>(value & mask),
        value & !mask != 0 ==> r == Err::<u32, ParseError>(
            ParseError::InvalidMask { invalid_set_bytes: value & !mask },
        ),
{
    if value & !mask > 0 {
        Err(ParseError::InvalidMask { invalid_set_bytes: value & !mask })
    } else {
        Ok(value & mask)
    }
}

/// Splits `value` into the bits selected by `mask` and the bits outside it.
pub fn split_with_mask(value: u32, mask: u32) -> (r: (u32, u32))
    ensures
        r.0 == value & mask,
        r.1 == value & !mask,
{
    (value & mask, value & !mask)
}

} // verus!
