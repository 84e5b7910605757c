//! The test device: a one-byte scratch register for diagnostics.

use vstd::prelude::*;
use crate::Address;

verus! {

/// The physical address where the test device is mapped.
pub const BASE_ADDRESS: Address = 0x0201_0000;
/// Size of the test device in memory.
pub const DATA_LEN: usize = 0x100;

/// The test device. Byte zero of its buffer is read and written; a read at
/// any offset serves byte zero's current value.
#[derive(Debug)]
pub struct TestDevice {
    /// The scratch buffer.
    pub data: Vec<u8>,
}

impl TestDevice {
    /// Returns a test device with a zeroed scratch buffer.
    pub fn new() -> (r: TestDevice)
        ensures
            r.data@.len() == DATA_LEN,
            forall|i: int| 0 <= i < r.data@.len() ==> r.data@[i] == 0u8,
    {
        TestDevice { data: vec![0u8; 0x100] }
    }
}

} // verus!
