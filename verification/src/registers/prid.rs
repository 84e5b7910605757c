//! The CP0 PRId register: the processor revision identifier.

use vstd::prelude::*;
use crate::bits::{get_field, spec_get_field};

verus! {

/// PRId register.
#[derive(Clone, Copy, Debug, PartialEq, Eq, Structural)]
pub struct PridRegister {
    pub bits: u32,
}

impl PridRegister {
    /// Returns a PRId register with all bits clear.
    pub fn new() -> (r: Self)
        ensures
            r.bits == 0,
    {
        PridRegister { bits: 0 }
    }

    /// The implementation number: bits 8 to 15.
    pub fn imp(&self) -> (r: u32)
        ensures
            r == spec_get_field(self.bits, 8, 8),
    {
        get_field(self.bits, 8, 8)
    }

    /// The revision number: bits 0 to 7.
    pub fn rev(&self) -> (r: u32)
        ensures
            r == spec_get_field(self.bits, 0, 8),
    {
        get_field(self.bits, 0, 8)
    }
}

} // verus!
