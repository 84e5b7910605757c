//! The CP0 Status register.
//!
//! Bit 0 is IEc (interrupts enabled when set) and bit 1 is KUc (kernel mode
//! when clear); bits 2 to 5 hold the previous and old copies of that pair.
//! Exception entry pushes the pair stack left by two bits and return from
//! exception pops it right by two.

use vstd::prelude::*;
use crate::bits::{get_bit, get_field, set_bit, set_field, spec_get_bit, spec_get_field,
    spec_set_bit, spec_set_field};

verus! {

/// Value of the Status register after an exception entry: the KU/IE stack
/// is shifted left by two and the new current bits are clear.
pub open spec fn spec_status_push(bits: u32) -> u32 {
    (bits & 0xffff_ffc0) | ((bits << 2) & 0x3c)
}

/// Value of the Status register after `rfe`: the KU/IE stack is shifted
/// right by two, restoring the previous mode, and the old bits stay.
pub open spec fn spec_status_pop(bits: u32) -> u32 {
    (bits & 0xffff_fff0) | ((bits >> 2) & 0x0f)
}

/// Status register.
#[derive(Clone, Copy, Debug, PartialEq, Eq, Structural)]
pub struct StatusRegister {
    pub bits: u32,
}

impl StatusRegister {
    /// Returns a Status register with all bits clear.
    pub fn new() -> (r: Self)
        ensures
            r.bits == 0,
    {
        StatusRegister { bits: 0 }
    }

    /// True when interrupts are enabled: IEc, bit 0, is set.
    pub open spec fn spec_interrupts_enabled(self) -> bool {
        spec_get_bit(self.bits, 0)
    }

    /// True when the processor runs in kernel mode: KUc, bit 1, is clear.
    pub open spec fn spec_kernel_mode(self) -> bool {
        !spec_get_bit(self.bits, 1)
    }

    /// True when the bootstrap exception vectors are in use: BEV, bit 22.
    pub open spec fn spec_bootstrap_mode(self) -> bool {
        spec_get_bit(self.bits, 22)
    }

    /// Current interrupt enable status.
    pub fn are_interrupts_enabled(&self) -> (r: bool)
        ensures
            r == self.spec_interrupts_enabled(),
    {
        get_bit(self.bits, 0)
    }

    /// Sets IEc: interrupts become enabled.
    pub fn enable_interrupts(&mut self)
        ensures
            final(self).bits == spec_set_bit(old(self).bits, 0, true),
    {
        self.bits = set_bit(self.bits, 0, true);
    }

    /// Clears IEc: interrupts become disabled.
    pub fn disable_interrupts(&mut self)
        ensures
            final(self).bits == spec_set_bit(old(self).bits, 0, false),
    {
        self.bits = set_bit(self.bits, 0, false);
    }

    /// Current kernel / user mode status: kernel mode when KUc is clear.
    pub fn is_kernel_mode(&self) -> (r: bool)
        ensures
            r == self.spec_kernel_mode(),
    {
        !get_bit(self.bits, 1)
    }

    /// Clears KUc: the processor enters kernel mode.
    pub fn enter_kernel_mode(&mut self)
        ensures
            final(self).bits == spec_set_bit(old(self).bits, 1, false),
    {
        self.bits = set_bit(self.bits, 1, false);
    }

    /// Sets KUc: the processor enters user mode.
    pub fn enter_user_mode(&mut self)
        ensures
            final(self).bits == spec_set_bit(old(self).bits, 1, true),
    {
        self.bits = set_bit(self.bits, 1, true);
    }

    /// Previous interrupt enable status: IEp, bit 2.
    pub fn iep(&self) -> (r: bool)
        ensures
            r == spec_get_bit(self.bits, 2),
    {
        get_bit(self.bits, 2)
    }

    /// Sets IEp.
    pub fn set_iep(&mut self)
        ensures
            final(self).bits == spec_set_bit(old(self).bits, 2, true),
    {
        self.bits = set_bit(self.bits, 2, true);
    }

    /// Clears IEp.
    pub fn clear_iep(&mut self)
        ensures
            final(self).bits == spec_set_bit(old(self).bits, 2, false),
    {
        self.bits = set_bit(self.bits, 2, false);
    }

    /// Previous kernel / user status: KUp, bit 3.
    pub fn kup(&self) -> (r: bool)
        ensures
            r == spec_get_bit(self.bits, 3),
    {
        get_bit(self.bits, 3)
    }

    /// Sets KUp.
    pub fn set_kup(&mut self)
        ensures
            final(self).bits == spec_set_bit(old(self).bits, 3, true),
    {
        self.bits = set_bit(self.bits, 3, true);
    }

    /// Clears KUp.
    pub fn clear_kup(&mut self)
        ensures
            final(self).bits == spec_set_bit(old(self).bits, 3, false),
    {
        self.bits = set_bit(self.bits, 3, false);
    }

    /// Old interrupt enable status: IEo, bit 4.
    pub fn ieo(&self) -> (r: bool)
        ensures
            r == spec_get_bit(self.bits, 4),
    {
        get_bit(self.bits, 4)
    }

    /// Sets IEo.
    pub fn set_ieo(&mut self)
        ensures
            final(self).bits == spec_set_bit(old(self).bits, 4, true),
    {
        self.bits = set_bit(self.bits, 4, true);
    }

    /// Clears IEo.
    pub fn clear_ieo(&mut self)
        ensures
            final(self).bits == spec_set_bit(old(self).bits, 4, false),
    {
        self.bits = set_bit(self.bits, 4, false);
    }

    /// Old kernel / user status: KUo, bit 5.
    pub fn kuo(&self) -> (r: bool)
        ensures
            r == spec_get_bit(self.bits, 5),
    {
        get_bit(self.bits, 5)
    }

    /// Sets KUo.
    pub fn set_kuo(&mut self)
        ensures
            final(self).bits == spec_set_bit(old(self).bits, 5, true),
    {
        self.bits = set_bit(self.bits, 5, true);
    }

    /// Clears KUo.
    pub fn clear_kuo(&mut self)
        ensures
            final(self).bits == spec_set_bit(old(self).bits, 5, false),
    {
        self.bits = set_bit(self.bits, 5, false);
    }

    /// Isolate-cache flag: IsC, bit 16.
    pub fn isc(&self) -> (r: bool)
        ensures
            r == spec_get_bit(self.bits, 16),
    {
        get_bit(self.bits, 16)
    }

    /// Sets IsC.
    pub fn set_isc(&mut self)
        ensures
            final(self).bits == spec_set_bit(old(self).bits, 16, true),
    {
        self.bits = set_bit(self.bits, 16, true);
    }

    /// Clears IsC.
    pub fn clear_isc(&mut self)
        ensures
            final(self).bits == spec_set_bit(old(self).bits, 16, false),
    {
        self.bits = set_bit(self.bits, 16, false);
    }

    /// Swap-caches flag: SwC, bit 17.
    pub fn swc(&self) -> (r: bool)
        ensures
            r == spec_get_bit(self.bits, 17),
    {
        get_bit(self.bits, 17)
    }

    /// Sets SwC.
    pub fn set_swc(&mut self)
        ensures
            final(self).bits == spec_set_bit(old(self).bits, 17, true),
    {
        self.bits = set_bit(self.bits, 17, true);
    }

    /// Clears SwC.
    pub fn clear_swc(&mut self)
        ensures
            final(self).bits == spec_set_bit(old(self).bits, 17, false),
    {
        self.bits = set_bit(self.bits, 17, false);
    }

    /// Cache-parity-forced-to-zero flag: PZ, bit 18.
    pub fn pz(&self) -> (r: bool)
        ensures
            r == spec_get_bit(self.bits, 18),
    {
        get_bit(self.bits, 18)
    }

    /// Cache-miss flag: CM, bit 19.
    pub fn cm(&self) -> (r: bool)
        ensures
            r == spec_get_bit(self.bits, 19),
    {
        get_bit(self.bits, 19)
    }

    /// Cache-parity flag: PE, bit 20.
    pub fn pe(&self) -> (r: bool)
        ensures
            r == spec_get_bit(self.bits, 20),
    {
        get_bit(self.bits, 20)
    }

    /// TLB-shutdown flag: TS, bit 21.
    pub fn ts(&self) -> (r: bool)
        ensures
            r == spec_get_bit(self.bits, 21),
    {
        get_bit(self.bits, 21)
    }

    /// Sets TS.
    pub fn set_ts(&mut self)
        ensures
            final(self).bits == spec_set_bit(old(self).bits, 21, true),
    {
        self.bits = set_bit(self.bits, 21, true);
    }

    /// Clears TS.
    pub fn clear_ts(&mut self)
        ensures
            final(self).bits == spec_set_bit(old(self).bits, 21, false),
    {
        self.bits = set_bit(self.bits, 21, false);
    }

    /// Bootstrap exception vector flag: BEV, bit 22.
    pub fn is_bootstrap_mode(&self) -> (r: bool)
        ensures
            r == self.spec_bootstrap_mode(),
    {
        get_bit(self.bits, 22)
    }

    /// Sets BEV: exceptions vector into the ROM entry points.
    pub fn enter_bootstrap(&mut self)
        ensures
            final(self).bits == spec_set_bit(old(self).bits, 22, true),
    {
        self.bits = set_bit(self.bits, 22, true);
    }

    /// Clears BEV: exceptions vector into the RAM entry points.
    pub fn leave_bootstrap(&mut self)
        ensures
            final(self).bits == spec_set_bit(old(self).bits, 22, false),
    {
        self.bits = set_bit(self.bits, 22, false);
    }

    /// Reverse-endianness-in-user-mode flag: RE, bit 25.
    pub fn re(&self) -> (r: bool)
        ensures
            r == spec_get_bit(self.bits, 25),
    {
        get_bit(self.bits, 25)
    }

    /// Coprocessor 0 usable flag: CU0, bit 28.
    pub fn cu0(&self) -> (r: bool)
        ensures
            r == spec_get_bit(self.bits, 28),
    {
        get_bit(self.bits, 28)
    }

    /// Coprocessor 1 usable flag: CU1, bit 29.
    pub fn cu1(&self) -> (r: bool)
        ensures
            r == spec_get_bit(self.bits, 29),
    {
        get_bit(self.bits, 29)
    }

    /// Coprocessor 2 usable flag: CU2, bit 30.
    pub fn cu2(&self) -> (r: bool)
        ensures
            r == spec_get_bit(self.bits, 30),
    {
        get_bit(self.bits, 30)
    }

    /// Coprocessor 3 usable flag: CU3, bit 31.
    pub fn cu3(&self) -> (r: bool)
        ensures
            r == spec_get_bit(self.bits, 31),
    {
        get_bit(self.bits, 31)
    }

    /// Interrupt mask: bits 8 to 15.
    pub fn get_interrupt_mask(&self) -> (r: u32)
        ensures
            r == spec_get_field(self.bits, 8, 8),
    {
        get_field(self.bits, 8, 8)
    }

    /// Replaces the interrupt mask with the low eight bits of `val`.
    pub fn set_interrupt_mask(&mut self, val: u32)
        ensures
            final(self).bits == spec_set_field(old(self).bits, 8, 8, val),
    {
        self.bits = set_field(self.bits, 8, 8, val);
    }

    /// Shifts the KU/IE stack left by two on exception entry, clearing the
    /// new current bits: the processor enters kernel mode with interrupts
    /// disabled.
    pub fn push_mode_stack(&mut self)
        ensures
            final(self).bits == spec_status_push(old(self).bits),
    {
        self.bits = (self.bits & 0xffff_ffc0) | ((self.bits << 2) & 0x3c);
    }

    /// Shifts the KU/IE stack right by two on return from exception,
    /// restoring the previous mode.
    pub fn pop_mode_stack(&mut self)
        ensures
            final(self).bits == spec_status_pop(old(self).bits),
    {
        self.bits = (self.bits & 0xffff_fff0) | ((self.bits >> 2) & 0x0f);
    }
}

} // verus!
