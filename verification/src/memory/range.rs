//! A half-open address range owned by one device on the bus.

use vstd::prelude::*;
use crate::Address;

verus! {

/// The half-open address range `[base, base + size)`.
#[derive(Copy, Clone, Debug)]
pub struct Range {
    pub base: Address,
    pub size: usize,
}

impl Range {
    /// A sound range is non-empty and fits inside the 32-bit address space.
    pub open spec fn wf(self) -> bool {
        &&& self.size >= 1
        &&& self.base + self.size <= 0x1_0000_0000
    }

    /// Whether `address` falls inside the range.
    pub open spec fn spec_contains(self, address: Address) -> bool {
        self.base <= address < self.base + self.size
    }

    /// Whether the range intersects `[base, base + len)`.
    pub open spec fn spec_overlaps(self, base: Address, len: usize) -> bool {
        self.base < base + len && base < self.base + self.size
    }

    /// Returns the range `[base, base + size)`.
    pub fn new(base: Address, size: usize) -> (r: Self)
        ensures
            r.base == base,
            r.size == size,
    {
        Range { base, size }
    }

    /// Whether `address` is within the range.
    pub fn contains(&self, address: Address) -> (r: bool)
        requires
            self.size <= 0x1_0000_0000,
        ensures
            r == self.spec_contains(address),
    {
        self.base <= address && (address as u64) < self.base as u64 + self.size as u64
    }

    /// Whether there is an overlap between this range and `[base, base + len)`.
    pub fn overlaps(&self, base: Address, len: usize) -> (r: bool)
        requires
            len <= 0x1_0000_0000,
            self.size <= 0x1_0000_0000,
        ensures
            r == self.spec_overlaps(base, len),
    {
        (self.base as u64) < base as u64 + len as u64 && (base as u64) < self.base as u64
            + self.size as u64
    }

    /// The last address that is part of the range.
    pub fn last(&self) -> (r: Address)
        requires
            self.wf(),
        ensures
            r == self.base + self.size - 1,
    {
        self.base + (self.size - 1) as Address
    }

    /// The first address of the range.
    pub fn base(&self) -> (r: Address)
        ensures
            r == self.base,
    {
        self.base
    }

    /// The number of addresses the range covers.
    pub fn size(&self) -> (r: usize)
        ensures
            r == self.size,
    {
        self.size
    }
}

} // verus!
