//! Bit-field access on integers through the `bit_field` crate.
//!
//! Each integer width gets a mathematical description of a bit range
//! (`*_bits`), of an integer with a bit range replaced (`*_with_bits`), of a
//! single bit (`*_bit`) and of an integer with one bit replaced
//! (`*_with_bit`). The calls into `bit_field::BitField` are stated against
//! these descriptions; the lemmas below give the facts that callers combine.
use bit_field::BitField;
use vstd::prelude::*;

verus! {

// ---------------------------------------------------------------- u64

/// The low `width` bits set (all bits when `width` is 64).
pub open spec fn u64_mask(width: u64) -> u64 {
    !(u64::MAX << width)
}

/// Bits `lo..hi` of `x`, shifted down to bit 0.
pub open spec fn u64_bits(x: u64, lo: u64, hi: u64) -> u64 {
    (x >> lo) & u64_mask((hi - lo) as u64)
}

/// `x` with bits `lo..hi` replaced by `v`.
pub open spec fn u64_with_bits(x: u64, lo: u64, hi: u64, v: u64) -> u64 {
    (x & !(u64_mask((hi - lo) as u64) << lo)) | (v << lo)
}

/// Bit `i` of `x`.
pub open spec fn u64_bit(x: u64, i: u64) -> bool {
    (x >> i) & 1u64 == 1u64
}

/// `x` with bit `i` set to `b`.
pub open spec fn u64_with_bit(x: u64, i: u64, b: bool) -> u64 {
    if b {
        x | (1u64 << i)
    } else {
        x & !(1u64 << i)
    }
}

/// `<u64 as BitField>::get_bit`: bit `bit` of `value`; it asserts
/// `bit < 64`.
#[verifier::external_body]
pub(crate) fn u64_get_bit(value: u64, bit: usize) -> (r: bool)
    requires
        bit < 64,
    ensures
        r == u64_bit(value, bit as u64),
{
    value.get_bit(bit)
}

/// `<u64 as BitField>::set_bit`: `value` with bit `bit` set to `set`; it
/// asserts `bit < 64`.
#[verifier::external_body]
pub(crate) fn u64_set_bit(value: u64, bit: usize, set: bool) -> (r: u64)
    requires
        bit < 64,
    ensures
        r == u64_with_bit(value, bit as u64, set),
{
    let mut value = value;
    *value.set_bit(bit, set)
}

/// `<u64 as BitField>::get_bits` on `lo..hi`: that bit range of `value`,
/// shifted down to bit 0; it asserts that the range lies within the 64 bits.
#[verifier::external_body]
pub(crate) fn u64_get_bits(value: u64, lo: usize, hi: usize) -> (r: u64)
    requires
        lo < hi <= 64,
    ensures
        r == u64_bits(value, lo as u64, hi as u64),
{
    value.get_bits(lo..hi)
}

/// `<u64 as BitField>::set_bits` on `lo..hi`: `value` with that range
/// replaced by `field`; it asserts that the range lies within the 64 bits
/// and that `field` fits into the range.
#[verifier::external_body]
pub(crate) fn u64_set_bits(value: u64, lo: usize, hi: usize, field: u64) -> (r: u64)
    requires
        lo < hi <= 64,
        field <= u64_mask((hi - lo) as u64),
    ensures
        r == u64_with_bits(value, lo as u64, hi as u64, field),
{
    let mut value = value;
    *value.set_bits(lo..hi, field)
}

/// Reading back a range that was just written gives the written value, and
/// every range that does not overlap it is unchanged.
pub proof fn lemma_u64_bits_of_with_bits(x: u64, lo: u64, hi: u64, v: u64, lo2: u64, hi2: u64)
    requires
        lo < hi <= 64,
        lo2 < hi2 <= 64,
        v <= u64_mask((hi - lo) as u64),
    ensures
        u64_bits(u64_with_bits(x, lo, hi, v), lo, hi) == v,
        hi2 <= lo || hi <= lo2 ==> u64_bits(u64_with_bits(x, lo, hi, v), lo2, hi2) == u64_bits(
            x,
            lo2,
            hi2,
        ),
{
    assert(u64_bits(u64_with_bits(x, lo, hi, v), lo, hi) == v && (hi2 <= lo || hi <= lo2
        ==> u64_bits(u64_with_bits(x, lo, hi, v), lo2, hi2) == u64_bits(x, lo2, hi2))) by (bit_vector)
        requires
            lo < hi <= 64,
            lo2 < hi2 <= 64,
            v <= u64_mask((hi - lo) as u64),
    ;
}

/// Reading back a bit that was just written gives the written value, and
/// every other bit is unchanged.
pub proof fn lemma_u64_bit_of_with_bit(x: u64, i: u64, b: bool, j: u64)
    requires
        i < 64,
        j < 64,
    ensures
        u64_bit(u64_with_bit(x, i, b), i) == b,
        i != j ==> u64_bit(u64_with_bit(x, i, b), j) == u64_bit(x, j),
{
    assert(u64_bit(u64_with_bit(x, i, b), i) == b && (i != j ==> u64_bit(u64_with_bit(x, i, b), j)
        == u64_bit(x, j))) by (bit_vector)
        requires
            i < 64,
            j < 64,
    ;
}

/// Writing one bit leaves every range that does not hold it unchanged, and
/// writing a range leaves every bit outside it unchanged.
pub proof fn lemma_u64_bit_range_disjoint(x: u64, i: u64, b: bool, lo: u64, hi: u64, v: u64)
    requires
        i < 64,
        lo < hi <= 64,
        i < lo || hi <= i,
        v <= u64_mask((hi - lo) as u64),
    ensures
        u64_bits(u64_with_bit(x, i, b), lo, hi) == u64_bits(x, lo, hi),
        u64_bit(u64_with_bits(x, lo, hi, v), i) == u64_bit(x, i),
{
    assert(u64_bits(u64_with_bit(x, i, b), lo, hi) == u64_bits(x, lo, hi) && u64_bit(
        u64_with_bits(x, lo, hi, v),
        i,
    ) == u64_bit(x, i)) by (bit_vector)
        requires
            i < 64,
            lo < hi <= 64,
            i < lo || hi <= i,
            v <= u64_mask((hi - lo) as u64),
    ;
}

// ---------------------------------------------------------------- u32

/// The low `width` bits set (all bits when `width` is 32).
pub open spec fn u32_mask(width: u32) -> u32 {
    !(u32::MAX << width)
}

/// Bits `lo..hi` of `x`, shifted down to bit 0.
pub open spec fn u32_bits(x: u32, lo: u32, hi: u32) -> u32 {
    (x >> lo) & u32_mask((hi - lo) as u32)
}

/// `x` with bits `lo..hi` replaced by `v`.
pub open spec fn u32_with_bits(x: u32, lo: u32, hi: u32, v: u32) -> u32 {
    (x & !(u32_mask((hi - lo) as u32) << lo)) | (v << lo)
}

/// Bit `i` of `x`.
pub open spec fn u32_bit(x: u32, i: u32) -> bool {
    (x >> i) & 1u32 == 1u32
}

/// `x` with bit `i` set to `b`.
pub open spec fn u32_with_bit(x: u32, i: u32, b: bool) -> u32 {
    if b {
        x | (1u32 << i)
    } else {
        x & !(1u32 << i)
    }
}

/// `<u32 as BitField>::get_bit`: bit `bit` of `value`; it asserts
/// `bit < 32`.
#[verifier::external_body]
pub(crate) fn u32_get_bit(value: u32, bit: usize) -> (r: bool)
    requires
        bit < 32,
    ensures
        r == u32_bit(value, bit as u32),
{
    value.get_bit(bit)
}

/// `<u32 as BitField>::set_bit`: `value` with bit `bit` set to `set`; it
/// asserts `bit < 32`.
#[verifier::external_body]
pub(crate) fn u32_set_bit(value: u32, bit: usize, set: bool) -> (r: u32)
    requires
        bit < 32,
    ensures
        r == u32_with_bit(value, bit as u32, set),
{
    let mut value = value;
    *value.set_bit(bit, set)
}

/// `<u32 as BitField>::get_bits` on `lo..hi`: that bit range of `value`,
/// shifted down to bit 0; it asserts that the range lies within the 32 bits.
#[verifier::external_body]
pub(crate) fn u32_get_bits(value: u32, lo: usize, hi: usize) -> (r: u32)
    requires
        lo < hi <= 32,
    ensures
        r == u32_bits(value, lo as u32, hi as u32),
{
    value.get_bits(lo..hi)
}

/// `<u32 as BitField>::set_bits` on `lo..hi`: `value` with that range
/// replaced by `field`; it asserts that the range lies within the 32 bits
/// and that `field` fits into the range.
#[verifier::external_body]
pub(crate) fn u32_set_bits(value: u32, lo: usize, hi: usize, field: u32) -> (r: u32)
    requires
        lo < hi <= 32,
        field <= u32_mask((hi - lo) as u32),
    ensures
        r == u32_with_bits(value, lo as u32, hi as u32, field),
{
    let mut value = value;
    *value.set_bits(lo..hi, field)
}

/// Reading back a range that was just written gives the written value, and
/// every range that does not overlap it is unchanged.
pub proof fn lemma_u32_bits_of_with_bits(x: u32, lo: u32, hi: u32, v: u32, lo2: u32, hi2: u32)
    requires
        lo < hi <= 32,
        lo2 < hi2 <= 32,
        v <= u32_mask((hi - lo) as u32),
    ensures
        u32_bits(u32_with_bits(x, lo, hi, v), lo, hi) == v,
        hi2 <= lo || hi <= lo2 ==> u32_bits(u32_with_bits(x, lo, hi, v), lo2, hi2) == u32_bits(
            x,
            lo2,
            hi2,
        ),
{
    assert(u32_bits(u32_with_bits(x, lo, hi, v), lo, hi) == v && (hi2 <= lo || hi <= lo2
        ==> u32_bits(u32_with_bits(x, lo, hi, v), lo2, hi2) == u32_bits(x, lo2, hi2))) by (bit_vector)
        requires
            lo < hi <= 32,
            lo2 < hi2 <= 32,
            v <= u32_mask((hi - lo) as u32),
    ;
}

/// Reading back a bit that was just written gives the written value, and
/// every other bit is unchanged.
pub proof fn lemma_u32_bit_of_with_bit(x: u32, i: u32, b: bool, j: u32)
    requires
        i < 32,
        j < 32,
    ensures
        u32_bit(u32_with_bit(x, i, b), i) == b,
        i != j ==> u32_bit(u32_with_bit(x, i, b), j) == u32_bit(x, j),
{
    assert(u32_bit(u32_with_bit(x, i, b), i) == b && (i != j ==> u32_bit(u32_with_bit(x, i, b), j)
        == u32_bit(x, j))) by (bit_vector)
        requires
            i < 32,
            j < 32,
    ;
}

/// Writing one bit leaves every range that does not hold it unchanged, and
/// writing a range leaves every bit outside it unchanged.
pub proof fn lemma_u32_bit_range_disjoint(x: u32, i: u32, b: bool, lo: u32, hi: u32, v: u32)
    requires
        i < 32,
        lo < hi <= 32,
        i < lo || hi <= i,
        v <= u32_mask((hi - lo) as u32),
    ensures
        u32_bits(u32_with_bit(x, i, b), lo, hi) == u32_bits(x, lo, hi),
        u32_bit(u32_with_bits(x, lo, hi, v), i) == u32_bit(x, i),
{
    assert(u32_bits(u32_with_bit(x, i, b), lo, hi) == u32_bits(x, lo, hi) && u32_bit(
        u32_with_bits(x, lo, hi, v),
        i,
    ) == u32_bit(x, i)) by (bit_vector)
        requires
            i < 32,
            lo < hi <= 32,
            i < lo || hi <= i,
            v <= u32_mask((hi - lo) as u32),
    ;
}

// ---------------------------------------------------------------- u16

/// The low `width` bits set (all bits when `width` is 16).
pub open spec fn u16_mask(width: u16) -> u16 {
    !(u16::MAX << width)
}

/// Bits `lo..hi` of `x`, shifted down to bit 0.
pub open spec fn u16_bits(x: u16, lo: u16, hi: u16) -> u16 {
    (x >> lo) & u16_mask((hi - lo) as u16)
}

/// `x` with bits `lo..hi` replaced by `v`.
pub open spec fn u16_with_bits(x: u16, lo: u16, hi: u16, v: u16) -> u16 {
    (x & !(u16_mask((hi - lo) as u16) << lo)) | (v << lo)
}

/// Bit `i` of `x`.
pub open spec fn u16_bit(x: u16, i: u16) -> bool {
    (x >> i) & 1u16 == 1u16
}

/// `x` with bit `i` set to `b`.
pub open spec fn u16_with_bit(x: u16, i: u16, b: bool) -> u16 {
    if b {
        x | (1u16 << i)
    } else {
        x & !(1u16 << i)
    }
}

/// `<u16 as BitField>::get_bit`: bit `bit` of `value`; it asserts
/// `bit < 16`.
#[verifier::external_body]
pub(crate) fn u16_get_bit(value: u16, bit: usize) -> (r: bool)
    requires
        bit < 16,
    ensures
        r == u16_bit(value, bit as u16),
{
    value.get_bit(bit)
}

/// `<u16 as BitField>::set_bit`: `value` with bit `bit` set to `set`; it
/// asserts `bit < 16`.
#[verifier::external_body]
pub(crate) fn u16_set_bit(value: u16, bit: usize, set: bool) -> (r: u16)
    requires
        bit < 16,
    ensures
        r == u16_with_bit(value, bit as u16, set),
{
    let mut value = value;
    *value.set_bit(bit, set)
}

/// `<u16 as BitField>::get_bits` on `lo..hi`: that bit range of `value`,
/// shifted down to bit 0; it asserts that the range lies within the 16 bits.
#[verifier::external_body]
pub(crate) fn u16_get_bits(value: u16, lo: usize, hi: usize) -> (r: u16)
    requires
        lo < hi <= 16,
    ensures
        r == u16_bits(value, lo as u16, hi as u16),
{
    value.get_bits(lo..hi)
}

/// `<u16 as BitField>::set_bits` on `lo..hi`: `value` with that range
/// replaced by `field`; it asserts that the range lies within the 16 bits
/// and that `field` fits into the range.
#[verifier::external_body]
pub(crate) fn u16_set_bits(value: u16, lo: usize, hi: usize, field: u16) -> (r: u16)
    requires
        lo < hi <= 16,
        field <= u16_mask((hi - lo) as u16),
    ensures
        r == u16_with_bits(value, lo as u16, hi as u16, field),
{
    let mut value = value;
    *value.set_bits(lo..hi, field)
}

/// Reading back a range that was just written gives the written value, and
/// every range that does not overlap it is unchanged.
pub proof fn lemma_u16_bits_of_with_bits(x: u16, lo: u16, hi: u16, v: u16, lo2: u16, hi2: u16)
    requires
        lo < hi <= 16,
        lo2 < hi2 <= 16,
        v <= u16_mask((hi - lo) as u16),
    ensures
        u16_bits(u16_with_bits(x, lo, hi, v), lo, hi) == v,
        hi2 <= lo || hi <= lo2 ==> u16_bits(u16_with_bits(x, lo, hi, v), lo2, hi2) == u16_bits(
            x,
            lo2,
            hi2,
        ),
{
    assert(u16_bits(u16_with_bits(x, lo, hi, v), lo, hi) == v && (hi2 <= lo || hi <= lo2
        ==> u16_bits(u16_with_bits(x, lo, hi, v), lo2, hi2) == u16_bits(x, lo2, hi2))) by (bit_vector)
        requires
            lo < hi <= 16,
            lo2 < hi2 <= 16,
            v <= u16_mask((hi - lo) as u16),
    ;
}

/// Reading back a bit that was just written gives the written value, and
/// every other bit is unchanged.
pub proof fn lemma_u16_bit_of_with_bit(x: u16, i: u16, b: bool, j: u16)
    requires
        i < 16,
        j < 16,
    ensures
        u16_bit(u16_with_bit(x, i, b), i) == b,
        i != j ==> u16_bit(u16_with_bit(x, i, b), j) == u16_bit(x, j),
{
    assert(u16_bit(u16_with_bit(x, i, b), i) == b && (i != j ==> u16_bit(u16_with_bit(x, i, b), j)
        == u16_bit(x, j))) by (bit_vector)
        requires
            i < 16,
            j < 16,
    ;
}

/// Writing one bit leaves every range that does not hold it unchanged, and
/// writing a range leaves every bit outside it unchanged.
pub proof fn lemma_u16_bit_range_disjoint(x: u16, i: u16, b: bool, lo: u16, hi: u16, v: u16)
    requires
        i < 16,
        lo < hi <= 16,
        i < lo || hi <= i,
        v <= u16_mask((hi - lo) as u16),
    ensures
        u16_bits(u16_with_bit(x, i, b), lo, hi) == u16_bits(x, lo, hi),
        u16_bit(u16_with_bits(x, lo, hi, v), i) == u16_bit(x, i),
{
    assert(u16_bits(u16_with_bit(x, i, b), lo, hi) == u16_bits(x, lo, hi) && u16_bit(
        u16_with_bits(x, lo, hi, v),
        i,
    ) == u16_bit(x, i)) by (bit_vector)
        requires
            i < 16,
            lo < hi <= 16,
            i < lo || hi <= i,
            v <= u16_mask((hi - lo) as u16),
    ;
}



/// A bit range never exceeds the mask of its width.
pub proof fn lemma_u64_bits_fit(x: u64, lo: u64, hi: u64)
    requires
        lo < hi <= 64,
    ensures
        u64_bits(x, lo, hi) <= u64_mask((hi - lo) as u64),
{
    assert(u64_bits(x, lo, hi) <= u64_mask((hi - lo) as u64)) by (bit_vector)
        requires
            lo < hi <= 64,
    ;
}

/// The masks of the field widths used by the descriptor and register
/// layouts.
pub proof fn lemma_u64_masks()
    ensures
        u64_mask(1) == 1,
        u64_mask(2) == 3,
        u64_mask(3) == 7,
        u64_mask(4) == 15,
        u64_mask(8) == 0xFF,
        u64_mask(13) == 0x1FFF,
        u64_mask(16) == 0xFFFF,
        u64_mask(32) == 0xFFFF_FFFF,
        u64_mask(64) == u64::MAX,
{
    assert(u64_mask(1) == 1 && u64_mask(2) == 3 && u64_mask(3) == 7 && u64_mask(4) == 15
        && u64_mask(8) == 0xFF && u64_mask(13) == 0x1FFF && u64_mask(16) == 0xFFFF && u64_mask(32)
        == 0xFFFF_FFFF && u64_mask(64) == u64::MAX) by (bit_vector);
}

/// The masks of the field widths used by the descriptor and register
/// layouts.
pub proof fn lemma_u32_masks()
    ensures
        u32_mask(1) == 1,
        u32_mask(2) == 3,
        u32_mask(3) == 7,
        u32_mask(4) == 15,
        u32_mask(5) == 31,
        u32_mask(8) == 0xFF,
        u32_mask(16) == 0xFFFF,
        u32_mask(22) == 0x3F_FFFF,
{
    assert(u32_mask(1) == 1 && u32_mask(2) == 3 && u32_mask(3) == 7 && u32_mask(4) == 15
        && u32_mask(5) == 31 && u32_mask(8) == 0xFF && u32_mask(16) == 0xFFFF && u32_mask(22)
        == 0x3F_FFFF) by (bit_vector);
}

/// A bit range never exceeds the mask of its width.
pub proof fn lemma_u32_bits_fit(x: u32, lo: u32, hi: u32)
    requires
        lo < hi <= 32,
    ensures
        u32_bits(x, lo, hi) <= u32_mask((hi - lo) as u32),
{
    assert(u32_bits(x, lo, hi) <= u32_mask((hi - lo) as u32)) by (bit_vector)
        requires
            lo < hi <= 32,
    ;
}

/// The masks of the field widths used by the descriptor layouts.
pub proof fn lemma_u16_masks()
    ensures
        u16_mask(1) == 1,
        u16_mask(2) == 3,
        u16_mask(3) == 7,
        u16_mask(4) == 15,
{
    assert(u16_mask(1) == 1 && u16_mask(2) == 3 && u16_mask(3) == 7 && u16_mask(4) == 15)
        by (bit_vector);
}

/// A bit range never exceeds the mask of its width.
pub proof fn lemma_u16_bits_fit(x: u16, lo: u16, hi: u16)
    requires
        lo < hi <= 16,
    ensures
        u16_bits(x, lo, hi) <= u16_mask((hi - lo) as u16),
{
    assert(u16_bits(x, lo, hi) <= u16_mask((hi - lo) as u16)) by (bit_vector)
        requires
            lo < hi <= 16,
    ;
}

// ---------------------------------------------------------------- u128

/// The low `width` bits set (all bits when `width` is 128).
pub open spec fn u128_mask(width: u128) -> u128 {
    !(u128::MAX << width)
}

/// Bits `lo..hi` of `x`, shifted down to bit 0.
pub open spec fn u128_bits(x: u128, lo: u128, hi: u128) -> u128 {
    (x >> lo) & u128_mask((hi - lo) as u128)
}

/// `x` with bits `lo..hi` replaced by `v`.
pub open spec fn u128_with_bits(x: u128, lo: u128, hi: u128, v: u128) -> u128 {
    (x & !(u128_mask((hi - lo) as u128) << lo)) | (v << lo)
}

/// `<u128 as BitField>::get_bits` on `lo..hi`: that bit range of `value`,
/// shifted down to bit 0; it asserts that the range lies within the 128
/// bits.
#[verifier::external_body]
pub(crate) fn u128_get_bits(value: u128, lo: usize, hi: usize) -> (r: u128)
    requires
        lo < hi <= 128,
    ensures
        r == u128_bits(value, lo as u128, hi as u128),
{
    value.get_bits(lo..hi)
}

/// `<u128 as BitField>::set_bits` on `lo..hi`: `value` with that range
/// replaced by `field`; it asserts that the range lies within the 128 bits
/// and that `field` fits into the range.
#[verifier::external_body]
pub(crate) fn u128_set_bits(value: u128, lo: usize, hi: usize, field: u128) -> (r: u128)
    requires
        lo < hi <= 128,
        field <= u128_mask((hi - lo) as u128),
    ensures
        r == u128_with_bits(value, lo as u128, hi as u128, field),
{
    let mut value = value;
    *value.set_bits(lo..hi, field)
}

} // verus!
