//! One entry of the translation lookaside buffer.
//!
//! A TLB entry is 64 bits wide, held here as the two words `entryhi` and
//! `entrylo`. EntryHi holds the virtual page number and address-space
//! identifier; EntryLo holds the physical frame number and the N, D, V and
//! G flags.

use vstd::prelude::*;
use crate::bits::{get_bit, spec_get_bit};

verus! {

/// Mask of the virtual page number inside EntryHi.
pub open spec fn spec_vpn_mask() -> u32 {
    0xffff_f000
}

/// A TLB entry, as the pair of its EntryHi and EntryLo words.
#[derive(Copy, Clone, Debug, Default, PartialEq, Eq, Structural)]
pub struct TlbEntry {
    pub entryhi: u32,
    pub entrylo: u32,
}

impl TlbEntry {
    /// The virtual page number: bits 12 to 31 of EntryHi.
    pub fn vpn(&self) -> (r: u32)
        ensures
            r == self.entryhi & 0xffff_f000,
    {
        self.entryhi & 0xffff_f000
    }

    /// The address-space identifier: bits 6 to 11 of EntryHi.
    pub fn asid(&self) -> (r: u32)
        ensures
            r == self.entryhi & 0x0fc0,
    {
        self.entryhi & 0x0fc0
    }

    /// The physical frame number: bits 12 to 31 of EntryLo.
    pub fn pfn(&self) -> (r: u32)
        ensures
            r == self.entrylo & 0xffff_f000,
    {
        self.entrylo & 0xffff_f000
    }

    /// The cache-control flag N: bit 11 of EntryLo.
    pub fn noncacheable(&self) -> (r: bool)
        ensures
            r == spec_get_bit(self.entrylo, 11),
    {
        get_bit(self.entrylo, 11)
    }

    /// The write-control flag D: bit 10 of EntryLo.
    pub fn dirty(&self) -> (r: bool)
        ensures
            r == spec_get_bit(self.entrylo, 10),
    {
        get_bit(self.entrylo, 10)
    }

    /// The valid flag V: bit 9 of EntryLo.
    pub fn valid(&self) -> (r: bool)
        ensures
            r == spec_get_bit(self.entrylo, 9),
    {
        get_bit(self.entrylo, 9)
    }

    /// The global flag G: bit 8 of EntryLo.
    pub fn global(&self) -> (r: bool)
        ensures
            r == spec_get_bit(self.entrylo, 8),
    {
        get_bit(self.entrylo, 8)
    }
}

} // verus!
