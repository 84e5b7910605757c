//! The CP0 Cause register.
//!
//! Bits 2 to 6 hold the ExcCode of the last exception, bits 28 and 29 name
//! the coprocessor of a coprocessor-unusable exception, and bit 31 (BD) is
//! set when the faulting instruction sat in a branch delay slot.

use vstd::prelude::*;
use crate::bits::{get_bit, get_field, set_bit, set_field, spec_get_bit, spec_get_field,
    spec_set_bit, spec_set_field};
use crate::exception::{spec_exception_code, spec_exception_of_code, ExceptionCode};

verus! {

/// Cause register.
#[derive(Clone, Copy, Debug, PartialEq, Eq, Structural)]
pub struct CauseRegister {
    pub bits: u32,
}

impl CauseRegister {
    /// Returns a Cause register with all bits clear.
    pub fn new() -> (r: Self)
        ensures
            r.bits == 0,
    {
        CauseRegister { bits: 0 }
    }

    /// True when EPC points at the branch that precedes the faulting
    /// instruction: BD, bit 31.
    pub open spec fn spec_branch_delay(self) -> bool {
        spec_get_bit(self.bits, 31)
    }

    /// The ExcCode field, bits 2 to 6.
    pub open spec fn spec_exception_field(self) -> u32 {
        spec_get_field(self.bits, 2, 5)
    }

    /// Whether BD is set.
    pub fn is_branch_delay(&self) -> (r: bool)
        ensures
            r == self.spec_branch_delay(),
    {
        get_bit(self.bits, 31)
    }

    /// Sets BD.
    pub fn set_branch_delay(&mut self)
        ensures
            final(self).bits == spec_set_bit(old(self).bits, 31, true),
    {
        self.bits = set_bit(self.bits, 31, true);
    }

    /// Clears BD.
    pub fn clear_branch_delay(&mut self)
        ensures
            final(self).bits == spec_set_bit(old(self).bits, 31, false),
    {
        self.bits = set_bit(self.bits, 31, false);
    }

    /// The coprocessor number of the last coprocessor-unusable exception:
    /// CE, bits 28 and 29.
    pub fn get_coprocessor_error(&self) -> (r: u32)
        ensures
            r == spec_get_field(self.bits, 28, 2),
    {
        get_field(self.bits, 28, 2)
    }

    /// Records the coprocessor number of a coprocessor-unusable exception.
    pub fn set_coprocessor_error(&mut self, val: u32)
        ensures
            final(self).bits == spec_set_field(old(self).bits, 28, 2, val),
    {
        self.bits = set_field(self.bits, 28, 2, val);
    }

    /// The interrupt-pending field, bits 8 to 15.
    pub fn get_interrupt_pending(&self) -> (r: u32)
        ensures
            r == spec_get_field(self.bits, 8, 8),
    {
        get_field(self.bits, 8, 8)
    }

    /// Replaces the interrupt-pending field with the low eight bits of `val`.
    pub fn set_interrupt_pending(&mut self, val: u32)
        ensures
            final(self).bits == spec_set_field(old(self).bits, 8, 8, val),
    {
        self.bits = set_field(self.bits, 8, 8, val);
    }

    /// Reads the exception cause back from the ExcCode field.
    pub fn get_exception_code(&self) -> (r: ExceptionCode)
        ensures
            r == spec_exception_of_code(self.spec_exception_field()),
    {
        ExceptionCode::from_code(get_field(self.bits, 2, 5))
    }

    /// Stores the numeric code of `code` in the ExcCode field.
    pub fn set_exception_code(&mut self, code: ExceptionCode)
        ensures
            final(self).bits == spec_set_field(old(self).bits, 2, 5, spec_exception_code(code)),
    {
        let c = code.code();
        self.bits = set_field(self.bits, 2, 5, c);
    }
}

} // verus!
