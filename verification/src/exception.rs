//! Guest-visible exception causes and their numeric codes.

use vstd::prelude::*;

verus! {

/// Cause of a processor exception.
///
/// The numeric code of each cause, as stored in the ExcCode field of the
/// Cause register, is given by [`ExceptionCode::code`].
#[derive(Debug, Clone, Copy, PartialEq, Eq, Structural)]
pub enum ExceptionCode {
    /// External interrupt.
    Interrupt,
    /// Write to a mapped page that is not dirty.
    TLBMod,
    /// TLB miss on a load.
    TLBLoadMiss,
    /// TLB miss on a store.
    TLBStoreMiss,
    /// Misaligned load, or a kernel-only load from user mode.
    LoadAddressError,
    /// Misaligned store, or a kernel-only store from user mode.
    StoreAddressError,
    /// Instruction fetch from an unmapped address; halts the machine.
    InstructionBusError,
    /// Data access to an unmapped address.
    DataBusError,
    /// The `syscall` instruction.
    Syscall,
    /// The `break` instruction; halts the machine.
    Break,
    /// An undecoded primary opcode or sub-opcode.
    ReservedInstruction,
    /// Operation on a coprocessor that is not enabled.
    CoprocessorUnusable,
    /// Signed overflow in `add`, `addi` or `sub`.
    Overflow,
    /// A code read back from the Cause register that names no known cause.
    Unknown,
}

/// Numeric value of each exception cause.
pub open spec fn spec_exception_code(e: ExceptionCode) -> u32 {
    match e {
        ExceptionCode::Interrupt => 0,
        ExceptionCode::TLBMod => 1,
        ExceptionCode::TLBLoadMiss => 2,
        ExceptionCode::TLBStoreMiss => 3,
        ExceptionCode::LoadAddressError => 4,
        ExceptionCode::StoreAddressError => 5,
        ExceptionCode::InstructionBusError => 6,
        ExceptionCode::DataBusError => 7,
        ExceptionCode::Syscall => 8,
        ExceptionCode::Break => 9,
        ExceptionCode::ReservedInstruction => 10,
        ExceptionCode::CoprocessorUnusable => 11,
        ExceptionCode::Overflow => 12,
        ExceptionCode::Unknown => 31,
    }
}

/// The exception cause whose numeric value is `c`.
pub open spec fn spec_exception_of_code(c: u32) -> ExceptionCode {
    if c == 0 {
        ExceptionCode::Interrupt
    } else if c == 1 {
        ExceptionCode::TLBMod
    } else if c == 2 {
        ExceptionCode::TLBLoadMiss
    } else if c == 3 {
        ExceptionCode::TLBStoreMiss
    } else if c == 4 {
        ExceptionCode::LoadAddressError
    } else if c == 5 {
        ExceptionCode::StoreAddressError
    } else if c == 6 {
        ExceptionCode::InstructionBusError
    } else if c == 7 {
        ExceptionCode::DataBusError
    } else if c == 8 {
        ExceptionCode::Syscall
    } else if c == 9 {
        ExceptionCode::Break
    } else if c == 10 {
        ExceptionCode::ReservedInstruction
    } else if c == 11 {
        ExceptionCode::CoprocessorUnusable
    } else if c == 12 {
        ExceptionCode::Overflow
    } else {
        ExceptionCode::Unknown
    }
}

impl ExceptionCode {
    /// Returns the numeric code of this cause.
    pub fn code(&self) -> (r: u32)
        ensures
            r == spec_exception_code(*self),
            r < 32,
    {
        match self {
            ExceptionCode::Interrupt => 0,
            ExceptionCode::TLBMod => 1,
            ExceptionCode::TLBLoadMiss => 2,
            ExceptionCode::TLBStoreMiss => 3,
            ExceptionCode::LoadAddressError => 4,
            ExceptionCode::StoreAddressError => 5,
            ExceptionCode::InstructionBusError => 6,
            ExceptionCode::DataBusError => 7,
            ExceptionCode::Syscall => 8,
            ExceptionCode::Break => 9,
            ExceptionCode::ReservedInstruction => 10,
            ExceptionCode::CoprocessorUnusable => 11,
            ExceptionCode::Overflow => 12,
            ExceptionCode::Unknown => 31,
        }
    }

    /// Returns the cause named by a numeric code.
    pub fn from_code(c: u32) -> (r: ExceptionCode)
        ensures
            r == spec_exception_of_code(c),
    {
        if c == 0 {
            ExceptionCode::Interrupt
        } else if c == 1 {
            ExceptionCode::TLBMod
        } else if c == 2 {
            ExceptionCode::TLBLoadMiss
        } else if c == 3 {
            ExceptionCode::TLBStoreMiss
        } else if c == 4 {
            ExceptionCode::LoadAddressError
        } else if c == 5 {
            ExceptionCode::StoreAddressError
        } else if c == 6 {
            ExceptionCode::InstructionBusError
        } else if c == 7 {
            ExceptionCode::DataBusError
        } else if c == 8 {
            ExceptionCode::Syscall
        } else if c == 9 {
            ExceptionCode::Break
        } else if c == 10 {
            ExceptionCode::ReservedInstruction
        } else if c == 11 {
            ExceptionCode::CoprocessorUnusable
        } else if c == 12 {
            ExceptionCode::Overflow
        } else {
            ExceptionCode::Unknown
        }
    }
}

} // verus!
