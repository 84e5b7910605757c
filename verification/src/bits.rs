//! Single-bit and bit-field access on 32-bit words.
//!
//! The CP0 registers are defined by the R3000A manual as packed bit fields;
//! every register accessor in this crate is specified in terms of the
//! functions here.

use vstd::prelude::*;

verus! {

/// True when bit `i` of `x` is set.
pub open spec fn spec_get_bit(x: u32, i: u32) -> bool {
    (x >> i) & 1 == 1
}

/// `x` with bit `i` forced to `v`.
pub open spec fn spec_set_bit(x: u32, i: u32, v: bool) -> u32 {
    if v {
        x | (1u32 << i)
    } else {
        x & !(1u32 << i)
    }
}

/// The `w`-bit field of `x` that starts at bit `lo`.
pub open spec fn spec_get_field(x: u32, lo: u32, w: u32) -> u32 {
    (x >> lo) & (((1u32 << w) - 1) as u32)
}

/// `x` with the `w`-bit field at bit `lo` replaced by the low `w` bits of `v`.
pub open spec fn spec_set_field(x: u32, lo: u32, w: u32, v: u32) -> u32 {
    (x & !(((((1u32 << w) - 1) as u32) << lo) as u32)) | (((v & (((1u32 << w) - 1) as u32)) << lo) as u32)
}

/// Reads bit `i` of `x`.
pub fn get_bit(x: u32, i: u32) -> (r: bool)
    requires
        i < 32,
    ensures
        r == spec_get_bit(x, i),
{
    (x >> i) & 1 == 1
}

/// Returns `x` with bit `i` set to `v`.
pub fn set_bit(x: u32, i: u32, v: bool) -> (r: u32)
    requires
        i < 32,
    ensures
        r == spec_set_bit(x, i, v),
{
    if v {
        x | (1u32 << i)
    } else {
        x & !(1u32 << i)
    }
}

/// Reads the `w`-bit field of `x` starting at bit `lo`.
pub fn get_field(x: u32, lo: u32, w: u32) -> (r: u32)
    requires
        1 <= w < 32,
        lo + w <= 32,
    ensures
        r == spec_get_field(x, lo, w),
{
    proof {
        lemma_shl1_pos(w);
    }
    (x >> lo) & ((1u32 << w) - 1)
}

/// Returns `x` with the `w`-bit field at bit `lo` replaced by the low `w`
/// bits of `v`.
pub fn set_field(x: u32, lo: u32, w: u32, v: u32) -> (r: u32)
    requires
        1 <= w < 32,
        lo + w <= 32,
    ensures
        r == spec_set_field(x, lo, w, v),
{
    proof {
        lemma_shl1_pos(w);
    }
    let mask: u32 = (1u32 << w) - 1;
    (x & !(mask << lo)) | ((v & mask) << lo)
}

/// A one shifted left by fewer than 32 places is at least one.
proof fn lemma_shl1_pos(w: u32)
    by (bit_vector)
    requires
        w < 32,
    ensures
        1u32 << w >= 1,
{
}

} // verus!
