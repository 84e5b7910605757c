//! Emulator core for a little-endian 32-bit MIPS R3000A processor.
//!
//! The crate models the processor state, the system control coprocessor
//! (CP0), and a bus of memory-mapped devices, and interprets the MIPS I
//! integer instruction set one instruction at a time.

use vstd::prelude::*;

pub mod bits;
pub mod constants;
pub mod cpu;
pub mod cpzero;
pub mod devices;
pub mod emulator;
pub mod error;
pub mod exception;
pub mod instruction;
pub mod instructions;
pub mod memory;
pub mod opts;
pub mod registers;
pub mod tlbentry;

verus! {

/// A 32-bit address on the emulated machine.
pub type Address = u32;

/// Byte order of a ROM image.
#[derive(Clone, Copy, Debug, PartialEq, Eq, Structural)]
pub enum Endian {
    Big,
    Little,
}

/// What a single emulation step observed.
#[derive(Debug, Copy, Clone, PartialEq, Eq, Structural)]
pub enum EmulationEvent {
    /// One instruction was executed without incident.
    Step,
    /// The machine reached a halt condition.
    Halted,
    /// The program counter landed on a breakpoint.
    Breakpoint,
    /// A watched address was written; the payload is the address.
    WatchWrite(Address),
    /// A watched address was read; the payload is the address.
    WatchRead(Address),
}

} // verus!
