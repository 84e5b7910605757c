//! A convenience layer over the bus that maps a device at a physical
//! address, sized by the device itself.

use vstd::prelude::*;
use crate::devices::Device;
use crate::error::RmipsError;
use crate::memory::bus::{store_byte_post, store_half_post, store_word_post, Bus};
use crate::Address;

verus! {

/// Maps whole devices into physical memory and routes accesses to them.
#[derive(Debug)]
pub struct Mapper {
    /// The underlying bus.
    pub bus: Bus,
}

impl Mapper {
    /// The underlying bus is well formed.
    pub open spec fn wf(self) -> bool {
        self.bus.wf()
    }

    /// Returns a mapper with no mappings.
    pub fn new() -> (r: Self)
        ensures
            r.wf(),
            r.bus.devices@.len() == 0,
    {
        Mapper { bus: Bus::new() }
    }

    /// Maps `device` at physical address `paddress`, over as many bytes as
    /// the device backs. Fails with `MemoryRangeOverlap` when the new range
    /// would intersect an existing one.
    pub fn map_at_physical_address(&mut self, device: Device, paddress: Address) -> (r: Result<
        (),
        RmipsError,
    >)
        requires
            old(self).wf(),
            device.wf(),
            paddress + device.spec_len() <= 0x1_0000_0000,
        ensures
            final(self).wf(),
            r.is_ok() <==> (device.spec_len() >= 1 && forall|i: int|
                0 <= i < old(self).bus.devices@.len() ==> !(#[trigger] old(
                    self,
                ).bus.devices@[i]).0.spec_overlaps(paddress, device.spec_len() as usize)),
            r.is_ok() ==> final(self).bus.devices@ == old(self).bus.devices@.push(
                (
                    crate::memory::range::Range {
                        base: paddress,
                        size: device.spec_len() as usize,
                    },
                    device,
                ),
            ),
            !r.is_ok() ==> *final(self) == *old(self) && r == Err::<(), RmipsError>(
                RmipsError::MemoryRangeOverlap,
            ),
    {
        let size = device.len();
        self.bus.register(device, paddress, size)
    }

    /// Reads the byte at `address`.
    pub fn fetch_byte(&self, address: Address) -> (r: Result<u8, RmipsError>)
        requires
            self.wf(),
        ensures
            r == self.bus.spec_fetch_byte(address),
    {
        self.bus.fetch_byte(address)
    }

    /// Reads the little-endian halfword at `address`.
    pub fn fetch_halfword(&self, address: Address) -> (r: Result<u16, RmipsError>)
        requires
            self.wf(),
        ensures
            r == self.bus.spec_fetch_halfword(address),
    {
        self.bus.fetch_halfword(address)
    }

    /// Reads the little-endian word at `address`.
    pub fn fetch_word(&self, address: Address) -> (r: Result<u32, RmipsError>)
        requires
            self.wf(),
        ensures
            r == self.bus.spec_fetch_word(address),
    {
        self.bus.fetch_word(address)
    }

    /// Stores one byte at `address`.
    pub fn store_byte(&mut self, address: Address, data: u8) -> (r: Result<(), RmipsError>)
        requires
            old(self).wf(),
        ensures
            final(self).wf(),
            store_byte_post(old(self).bus, final(self).bus, address, data, r),
    {
        self.bus.store_byte(address, data)
    }

    /// Stores a little-endian halfword at `address`.
    pub fn store_halfword(&mut self, address: Address, data: u16) -> (r: Result<(), RmipsError>)
        requires
            old(self).wf(),
        ensures
            final(self).wf(),
            store_half_post(old(self).bus, final(self).bus, address, data, r),
    {
        self.bus.store_halfword(address, data)
    }

    /// Stores a little-endian word at `address`.
    pub fn store_word(&mut self, address: Address, data: u32) -> (r: Result<(), RmipsError>)
        requires
            old(self).wf(),
        ensures
            final(self).wf(),
            store_word_post(old(self).bus, final(self).bus, address, data, r),
    {
        self.bus.store_word(address, data)
    }
}

} // verus!
