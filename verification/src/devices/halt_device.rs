//! The halt device: a write of any non-zero byte halts the machine.

use vstd::prelude::*;
use crate::Address;

verus! {

/// The physical address where the halt device is mapped.
pub const BASE_ADDRESS: Address = 0x01010024;
/// Size of the halt device in memory.
pub const DATA_LEN: usize = 4;

/// The halt device. Reads return zero; a write of a non-zero byte signals a
/// halt.
#[derive(Debug)]
pub struct HaltDevice {
}

impl HaltDevice {
    /// Returns a halt device.
    pub fn new() -> (r: HaltDevice) {
        HaltDevice {}
    }
}

} // verus!
