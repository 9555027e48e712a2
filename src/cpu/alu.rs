use vstd::prelude::*;

use crate::error::EmuError;

verus! {

/// The 16-bit value whose high byte is `hi` and low byte is `lo`.
pub open spec fn compose16(lo: u8, hi: u8) -> u16 {
    (hi as int * 256 + lo as int) as u16
}

/// The low byte of a 16-bit value.
pub open spec fn low_byte(v: u16) -> u8 {
    (v % 256) as u8
}

/// The high byte of a 16-bit value.
pub open spec fn high_byte(v: u16) -> u8 {
    (v / 256) as u8
}

/// The low `length` bits set, as a 16-bit mask (`length <= 8`).
pub open spec fn low_mask(length: u8) -> u16 {
    ((1u16 << length as u16) - 1u16) as u16
}

/// The `length` bits of `b` starting at bit `index`, right-aligned.
pub open spec fn extract_bits(b: u8, index: u8, length: u8) -> u8 {
    (((b as u16) >> index as u16) & low_mask(length)) as u8
}

/// `b` with the `length` bits at `index` replaced by the low `length` bits of `v`.
pub open spec fn insert_bits(b: u8, index: u8, length: u8, v: u8) -> u8 {
    (((b as u16) & !(low_mask(length) << index as u16)) | (((v as u16) & low_mask(length))
        << index as u16)) as u8
}

fn mask_of(length: u8) -> (m: u16)
    requires
        length <= 8,
    ensures
        m == low_mask(length),
        m <= 0xFF,
{
    assert(1u16 <= (1u16 << length as u16) <= 0x100) by (bit_vector)
        requires
            length <= 8,
    ;
    assert(((1u16 << length as u16) - 1u16) as u16 <= 0xFF) by (bit_vector)
        requires
            length <= 8,
    ;
    (1u16 << length as u16) - 1u16
}

/// Composes a 16-bit value from its low and high byte.
pub fn read_u16(lo: &u8, hi: &u8) -> (r: u16)
    ensures
        r == compose16(*lo, *hi),
{
    (*hi as u16) * 256 + (*lo as u16)
}

/// Splits a 16-bit value into its low and high byte.
pub fn write_u16(lo: &mut u8, hi: &mut u8, value: u16)
    ensures
        *final(lo) == low_byte(value),
        *final(hi) == high_byte(value),
{
    *hi = (value / 256) as u8;
    *lo = (value % 256) as u8;
}

/// Reads `length` bits of `num` starting at bit `index` (bit 0 is the least significant).
pub fn read_bits(num: u8, index: u8, length: u8) -> (r: u8)
    requires
        index + length <= 8,
    ensures
        r == extract_bits(num, index, length),
{
    let mask = mask_of(length);
    (((num as u16) >> index as u16) & mask) as u8
}

/// Inserts the low `length` bits of `bits` into `target` at bit `index`, keeping the other bits.
/// Fails with `OverflowBitWrite`, leaving `target` as it was, when the field would reach past
/// bit 7.
pub fn write_bits(target: &mut u8, index: u8, length: u8, bits: u8) -> (r: Result<(), EmuError>)
    ensures
        index + length <= 8 ==> r == Ok::<(), EmuError>(()) && *final(target) == insert_bits(*old(target), index, length, bits),
        index + length > 8 ==> r == Err::<(), EmuError>(EmuError::OverflowBitWrite) && *final(target) == *old(target),
{
    if index > 8 || length > 8 - index {
        return Err(EmuError::OverflowBitWrite);
    }
    let mask = mask_of(length);
    *target = (((*target as u16) & !(mask << index as u16)) | (((bits as u16) & mask)
        << index as u16)) as u8;
    Ok(())
}

/// Composing a value from two bytes and splitting it again gives back the two bytes.
pub proof fn lemma_compose_decompose(lo: u8, hi: u8)
    ensures
        low_byte(compose16(lo, hi)) == lo,
        high_byte(compose16(lo, hi)) == hi,
{
}

/// Splitting a 16-bit value into bytes and composing them gives back the value.
pub proof fn lemma_decompose_compose(v: u16)
    ensures
        compose16(low_byte(v), high_byte(v)) == v,
{
}

/// Inserting the bits just extracted from a byte, at the same place, leaves the byte unchanged.
pub proof fn lemma_insert_extracted(b: u8, index: u8, length: u8)
    requires
        index + length <= 8,
    ensures
        insert_bits(b, index, length, extract_bits(b, index, length)) == b,
{
    let m = low_mask(length);
    assert(((((b as u16) & !(m << index as u16)) | (((((((b as u16) >> index as u16) & m) as u8)
        as u16) & m) << index as u16)) as u8) == b) by (bit_vector)
        requires
            index + length <= 8,
            m == ((1u16 << length as u16) - 1u16) as u16,
    ;
}

} // verus!
