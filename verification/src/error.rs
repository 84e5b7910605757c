//! Error kinds raised by the emulator core.

use vstd::prelude::*;
use crate::Address;

verus! {

/// Everything that can go wrong while building or running the machine.
///
/// `Halt` is not a fault: it marks a clean end of the run, signalled by the
/// halt device, by a `break` instruction, or by an instruction fetch from an
/// unmapped address.
#[derive(Debug)]
pub enum RmipsError {
    /// The machine reached a halt condition.
    Halt,
    /// A new device range intersects one that is already registered.
    MemoryRangeOverlap,
    /// A device rejected a read at this offset.
    MemoryRead(Address),
    /// A device rejected a write at this offset.
    MemoryWrite(Address),
    /// The ROM image could not be loaded from this path.
    RomLoading(String),
    /// No device owns this address.
    UnmappedAddress(Address),
}

} // verus!
