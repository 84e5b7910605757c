//! The CP0 Context register: the page-table lookup address assembled by the
//! hardware on a TLB miss.

use vstd::prelude::*;
use crate::bits::{get_field, set_field, spec_get_field, spec_set_field};

verus! {

/// Context register.
#[derive(Clone, Copy, Debug, PartialEq, Eq, Structural)]
pub struct ContextRegister {
    pub bits: u32,
}

impl ContextRegister {
    /// Returns a Context register with all bits clear.
    pub fn new() -> (r: Self)
        ensures
            r.bits == 0,
    {
        ContextRegister { bits: 0 }
    }

    /// The page-table base: bits 21 to 31.
    pub fn get_ptebase(&self) -> (r: u32)
        ensures
            r == spec_get_field(self.bits, 21, 11),
    {
        get_field(self.bits, 21, 11)
    }

    /// Replaces the page-table base with the low eleven bits of `val`.
    pub fn set_ptebase(&mut self, val: u32)
        ensures
            final(self).bits == spec_set_field(old(self).bits, 21, 11, val),
    {
        self.bits = set_field(self.bits, 21, 11, val);
    }

    /// The failing virtual page number: bits 2 to 20.
    pub fn get_badvpn(&self) -> (r: u32)
        ensures
            r == spec_get_field(self.bits, 2, 19),
    {
        get_field(self.bits, 2, 19)
    }

    /// Replaces the failing virtual page number with the low nineteen bits
    /// of `val`.
    pub fn set_badvpn(&mut self, val: u32)
        ensures
            final(self).bits == spec_set_field(old(self).bits, 2, 19, val),
    {
        self.bits = set_field(self.bits, 2, 19, val);
    }
}

} // verus!
