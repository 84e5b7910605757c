//! The CP0 Index register: selects the TLB slot that `tlbwi` writes, and
//! records whether the last `tlbp` probe failed.

use vstd::prelude::*;
use crate::bits::{get_bit, get_field, set_bit, set_field, spec_get_bit, spec_get_field,
    spec_set_bit, spec_set_field};

verus! {

/// Index register.
#[derive(Clone, Copy, Debug, PartialEq, Eq, Structural)]
pub struct IndexRegister {
    pub bits: u32,
}

impl IndexRegister {
    /// Returns an Index register with all bits clear.
    pub fn new() -> (r: Self)
        ensures
            r.bits == 0,
    {
        IndexRegister { bits: 0 }
    }

    /// The selected TLB slot: bits 8 to 13.
    pub open spec fn spec_index(self) -> u32 {
        spec_get_field(self.bits, 8, 6)
    }

    /// True when the last `tlbp` probe found no valid translation: P, bit 31.
    pub fn is_p(&self) -> (r: bool)
        ensures
            r == spec_get_bit(self.bits, 31),
    {
        get_bit(self.bits, 31)
    }

    /// Sets P.
    pub fn set_p(&mut self)
        ensures
            final(self).bits == spec_set_bit(old(self).bits, 31, true),
    {
        self.bits = set_bit(self.bits, 31, true);
    }

    /// Clears P.
    pub fn clear_p(&mut self)
        ensures
            final(self).bits == spec_set_bit(old(self).bits, 31, false),
    {
        self.bits = set_bit(self.bits, 31, false);
    }

    /// Reads the selected TLB slot.
    pub fn get_index(&self) -> (r: u32)
        ensures
            r == self.spec_index(),
            r < 64,
    {
        proof {
            let b: u32 = self.bits;
            assert(spec_get_field(b, 8, 6) < 64) by (bit_vector);
        }
        get_field(self.bits, 8, 6)
    }

    /// Selects a TLB slot.
    pub fn set_index(&mut self, val: u32)
        ensures
            final(self).bits == spec_set_field(old(self).bits, 8, 6, val),
    {
        self.bits = set_field(self.bits, 8, 6, val);
    }
}

} // verus!
