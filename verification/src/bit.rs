//! Single bits of a byte.
use vstd::prelude::*;

verus! {

/// Whether bit `bit` of `value` is set, bit 0 being the least significant.
pub open spec fn bit_is_set(value: u8, bit: usize) -> bool
    recommends
        bit < 8,
{
    value & (1u8 << bit) != 0
}

/// Reads one bit of a byte with `bit_field::BitField::get_bit`.
///
/// Trusted: for an index below 8 the outside method masks the byte with
/// one shifted left by the index and reports whether anything is left. It
/// panics on an index of 8 or more, which the precondition rules out.
#[verifier::external_body]
pub(crate) fn get_bit(value: u8, bit: usize) -> (r: bool)
    requires
        bit < 8,
    ensures
        r == bit_is_set(value, bit),
{
    bit_field::BitField::get_bit(&value, bit)
}

} // verus!
