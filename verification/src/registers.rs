//! CP0 register types and the architectural register numbering.

use vstd::prelude::*;

pub mod badvaddr;
pub mod cause;
pub mod context;
pub mod epc;
pub mod index;
pub mod prid;
pub mod random;
pub mod status;

pub use badvaddr::BadVaddrRegister;
pub use cause::CauseRegister;
pub use context::ContextRegister;
pub use epc::EpcRegister;
pub use index::IndexRegister;
pub use prid::PridRegister;
pub use random::RandomRegister;
pub use status::StatusRegister;

verus! {

/// The general-purpose registers, by their conventional MIPS names.
///
/// The variants are declared in architectural order, so `Zero` names
/// register 0 and `Ra` names register 31; [`Register::number`] gives the
/// index of each.
#[derive(Debug, Clone, Copy, PartialEq, Eq, Structural)]
pub enum Register {
    /// Zero register.
    Zero,
    /// Assembler temporary register.
    At,
    V0,
    V1,
    A0,
    A1,
    A2,
    A3,
    T0,
    T1,
    T2,
    T3,
    T4,
    T5,
    T6,
    T7,
    S0,
    S1,
    S2,
    S3,
    S4,
    S5,
    S6,
    S7,
    T8,
    T9,
    K0,
    K1,
    /// Global pointer.
    Gp,
    /// Stack pointer.
    Sp,
    /// Frame pointer.
    Fp,
    /// Return address register.
    Ra,
}

/// Index of each general-purpose register.
pub open spec fn spec_register_number(r: Register) -> usize {
    match r {
        Register::Zero => 0,
        Register::At => 1,
        Register::V0 => 2,
        Register::V1 => 3,
        Register::A0 => 4,
        Register::A1 => 5,
        Register::A2 => 6,
        Register::A3 => 7,
        Register::T0 => 8,
        Register::T1 => 9,
        Register::T2 => 10,
        Register::T3 => 11,
        Register::T4 => 12,
        Register::T5 => 13,
        Register::T6 => 14,
        Register::T7 => 15,
        Register::S0 => 16,
        Register::S1 => 17,
        Register::S2 => 18,
        Register::S3 => 19,
        Register::S4 => 20,
        Register::S5 => 21,
        Register::S6 => 22,
        Register::S7 => 23,
        Register::T8 => 24,
        Register::T9 => 25,
        Register::K0 => 26,
        Register::K1 => 27,
        Register::Gp => 28,
        Register::Sp => 29,
        Register::Fp => 30,
        Register::Ra => 31,
    }
}

impl Register {
    /// Returns the architectural index of this register.
    pub fn number(&self) -> (r: usize)
        ensures
            r == spec_register_number(*self),
            r < 32,
    {
        match self {
            Register::Zero => 0,
            Register::At => 1,
            Register::V0 => 2,
            Register::V1 => 3,
            Register::A0 => 4,
            Register::A1 => 5,
            Register::A2 => 6,
            Register::A3 => 7,
            Register::T0 => 8,
            Register::T1 => 9,
            Register::T2 => 10,
            Register::T3 => 11,
            Register::T4 => 12,
            Register::T5 => 13,
            Register::T6 => 14,
            Register::T7 => 15,
            Register::S0 => 16,
            Register::S1 => 17,
            Register::S2 => 18,
            Register::S3 => 19,
            Register::S4 => 20,
            Register::S5 => 21,
            Register::S6 => 22,
            Register::S7 => 23,
            Register::T8 => 24,
            Register::T9 => 25,
            Register::K0 => 26,
            Register::K1 => 27,
            Register::Gp => 28,
            Register::Sp => 29,
            Register::Fp => 30,
            Register::Ra => 31,
        }
    }
}

/// The architecturally named CP0 register slots.
#[derive(Debug, Clone, Copy, PartialEq, Eq, Structural)]
pub enum Cp0Register {
    /// TLB entry index register.
    Index,
    /// TLB randomized access register.
    Random,
    /// Low-order word of the staged TLB entry.
    EntryLo,
    /// Page-table lookup address.
    Context,
    /// The last invalid program address that caused a trap.
    BadVaddr,
    /// High-order word of the staged TLB entry.
    EntryHi,
    /// Operating mode, interrupt enable flags and diagnostic state.
    Status,
    /// Cause of the last exception.
    Cause,
    /// Address to return to after handling an exception.
    Epc,
    /// Processor revision identifier.
    Prid,
}

/// Architectural slot number of each named CP0 register.
pub open spec fn spec_cp0_register_number(r: Cp0Register) -> u32 {
    match r {
        Cp0Register::Index => 0,
        Cp0Register::Random => 1,
        Cp0Register::EntryLo => 2,
        Cp0Register::Context => 4,
        Cp0Register::BadVaddr => 8,
        Cp0Register::EntryHi => 10,
        Cp0Register::Status => 12,
        Cp0Register::Cause => 13,
        Cp0Register::Epc => 14,
        Cp0Register::Prid => 15,
    }
}

impl Cp0Register {
    /// Returns the architectural slot number of this register.
    pub fn number(&self) -> (r: u32)
        ensures
            r == spec_cp0_register_number(*self),
            r < 32,
    {
        match self {
            Cp0Register::Index => 0,
            Cp0Register::Random => 1,
            Cp0Register::EntryLo => 2,
            Cp0Register::Context => 4,
            Cp0Register::BadVaddr => 8,
            Cp0Register::EntryHi => 10,
            Cp0Register::Status => 12,
            Cp0Register::Cause => 13,
            Cp0Register::Epc => 14,
            Cp0Register::Prid => 15,
        }
    }
}

} // verus!
