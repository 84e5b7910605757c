//! The CP0 Random register: selects the TLB slot that `tlbwr` writes. The
//! hardware initializes its value field to 63 on reset.

use vstd::prelude::*;
use crate::bits::{get_field, set_field, spec_get_field, spec_set_field};

verus! {

/// Random register.
#[derive(Clone, Copy, Debug, PartialEq, Eq, Structural)]
pub struct RandomRegister {
    pub bits: u32,
}

impl RandomRegister {
    /// Returns a Random register with all bits clear.
    pub fn new() -> (r: Self)
        ensures
            r.bits == 0,
    {
        RandomRegister { bits: 0 }
    }

    /// The value field: bits 8 to 13.
    pub open spec fn spec_value(self) -> u32 {
        spec_get_field(self.bits, 8, 6)
    }

    /// Reads the value field.
    pub fn get_value(&self) -> (r: u32)
        ensures
            r == self.spec_value(),
            r < 64,
    {
        proof {
            let b: u32 = self.bits;
            assert(spec_get_field(b, 8, 6) < 64) by (bit_vector);
        }
        get_field(self.bits, 8, 6)
    }

    /// Replaces the value field with the low six bits of `val`.
    pub fn set_value(&mut self, val: u32)
        ensures
            final(self).bits == spec_set_field(old(self).bits, 8, 6, val),
    {
        self.bits = set_field(self.bits, 8, 6, val);
    }
}

} // verus!
