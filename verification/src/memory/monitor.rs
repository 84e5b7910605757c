//! The watchpoint monitor: a transparent wrapper over the bus that records
//! accesses to watched addresses.
//!
//! The monitor changes no semantics. Every read and write goes straight to
//! the bus; when the base address of an access sits in the watched set and
//! the access succeeded, the access is recorded for the emulator shell to
//! report.

use vstd::prelude::*;
use crate::error::RmipsError;
use crate::memory::bus::{store_byte_post, store_half_post, store_word_post, Bus};
use crate::Address;

verus! {

/// Whether an access was a read or a write.
#[derive(Debug, Copy, Clone, PartialEq, Eq, Structural)]
pub enum AccessKind {
    Read,
    Write,
}

/// One observed access to a watched address.
#[derive(Debug, Copy, Clone, PartialEq, Eq, Structural)]
pub struct Access {
    /// Whether the access read or wrote.
    pub kind: AccessKind,
    /// The base address of the access.
    pub address: Address,
    /// The value read or written, zero-extended to a word.
    pub data: u32,
    /// The width of the access in bytes.
    pub len: usize,
}

/// The record that a successful access leaves behind: the access itself when
/// its base address is watched, else whatever was recorded before.
pub open spec fn recorded(
    watchpoints: Seq<Address>,
    prior: Option<Access>,
    ok: bool,
    access: Access,
) -> Option<Access> {
    if ok && watchpoints.contains(access.address) {
        Some(access)
    } else {
        prior
    }
}

/// A bus wrapped with watchpoint observation.
#[derive(Debug)]
pub struct Monitor {
    /// The wrapped bus.
    pub bus: Bus,
    /// The watched addresses.
    pub watchpoints: Vec<Address>,
    /// The most recent access to a watched address, if any.
    pub hit: Option<Access>,
}

impl Monitor {
    /// The wrapped bus is well formed.
    pub open spec fn wf(self) -> bool {
        self.bus.wf()
    }

    /// Wraps `bus` with the watched address set `watchpoints`.
    pub fn new(bus: Bus, watchpoints: Vec<Address>) -> (r: Monitor)
        ensures
            r.bus == bus,
            r.watchpoints == watchpoints,
            r.hit is None,
    {
        Monitor { bus, watchpoints, hit: None }
    }

    /// The monitor with any recorded access forgotten.
    pub open spec fn cleared(self) -> Monitor {
        Monitor { hit: None, ..self }
    }

    /// Forgets any recorded access.
    pub fn clear_hit(&mut self)
        ensures
            *final(self) == old(self).cleared(),
    {
        self.hit = None;
    }

    /// Reads the byte at `address` through the bus, recording the access
    /// when `address` is watched.
    pub fn fetch_byte(&mut self, address: Address) -> (r: Result<u8, RmipsError>)
        requires
            old(self).wf(),
        ensures
            final(self).wf(),
            r == old(self).bus.spec_fetch_byte(address),
            final(self).bus == old(self).bus,
            final(self).watchpoints == old(self).watchpoints,
            final(self).hit == recorded(
                old(self).watchpoints@,
                old(self).hit,
                r.is_ok(),
                Access {
                    kind: AccessKind::Read,
                    address,
                    data: (if r is Ok {
                        r->Ok_0 as u32
                    } else {
                        0
                    }),
                    len: 1,
                },
            ),
    {
        match self.bus.fetch_byte(address) {
            Err(e) => Err(e),
            Ok(v) => {
                if contains_address(&self.watchpoints, address) {
                    self.hit = Some(
                        Access { kind: AccessKind::Read, address, data: v as u32, len: 1 },
                    );
                }
                Ok(v)
            },
        }
    }

    /// Reads the halfword at `address` through the bus, recording the access
    /// when `address` is watched.
    pub fn fetch_halfword(&mut self, address: Address) -> (r: Result<u16, RmipsError>)
        requires
            old(self).wf(),
        ensures
            final(self).wf(),
            r == old(self).bus.spec_fetch_halfword(address),
            final(self).bus == old(self).bus,
            final(self).watchpoints == old(self).watchpoints,
            final(self).hit == recorded(
                old(self).watchpoints@,
                old(self).hit,
                r.is_ok(),
                Access {
                    kind: AccessKind::Read,
                    address,
                    data: (if r is Ok {
                        r->Ok_0 as u32
                    } else {
                        0
                    }),
                    len: 2,
                },
            ),
    {
        match self.bus.fetch_halfword(address) {
            Err(e) => Err(e),
            Ok(v) => {
                if contains_address(&self.watchpoints, address) {
                    self.hit = Some(
                        Access { kind: AccessKind::Read, address, data: v as u32, len: 2 },
                    );
                }
                Ok(v)
            },
        }
    }

    /// Reads the word at `address` through the bus, recording the access
    /// when `address` is watched.
    pub fn fetch_word(&mut self, address: Address) -> (r: Result<u32, RmipsError>)
        requires
            old(self).wf(),
        ensures
            final(self).wf(),
            r == old(self).bus.spec_fetch_word(address),
            final(self).bus == old(self).bus,
            final(self).watchpoints == old(self).watchpoints,
            final(self).hit == recorded(
                old(self).watchpoints@,
                old(self).hit,
                r.is_ok(),
                Access {
                    kind: AccessKind::Read,
                    address,
                    data: (if r is Ok {
                        r->Ok_0
                    } else {
                        0
                    }),
                    len: 4,
                },
            ),
    {
        match self.bus.fetch_word(address) {
            Err(e) => Err(e),
            Ok(v) => {
                if contains_address(&self.watchpoints, address) {
                    self.hit = Some(Access { kind: AccessKind::Read, address, data: v, len: 4 });
                }
                Ok(v)
            },
        }
    }

    /// Stores one byte at `address` through the bus, recording the access
    /// when `address` is watched.
    pub fn store_byte(&mut self, address: Address, data: u8) -> (r: Result<(), RmipsError>)
        requires
            old(self).wf(),
        ensures
            final(self).wf(),
            store_byte_post(old(self).bus, final(self).bus, address, data, r),
            final(self).watchpoints == old(self).watchpoints,
            final(self).hit == recorded(
                old(self).watchpoints@,
                old(self).hit,
                r.is_ok(),
                Access { kind: AccessKind::Write, address, data: data as u32, len: 1 },
            ),
    {
        match self.bus.store_byte(address, data) {
            Err(e) => Err(e),
            Ok(_) => {
                if contains_address(&self.watchpoints, address) {
                    self.hit = Some(
                        Access { kind: AccessKind::Write, address, data: data as u32, len: 1 },
                    );
                }
                Ok(())
            },
        }
    }

    /// Stores a halfword at `address` through the bus, recording the access
    /// when `address` is watched.
    pub fn store_halfword(&mut self, address: Address, data: u16) -> (r: Result<(), RmipsError>)
        requires
            old(self).wf(),
        ensures
            final(self).wf(),
            store_half_post(old(self).bus, final(self).bus, address, data, r),
            final(self).watchpoints == old(self).watchpoints,
            final(self).hit == recorded(
                old(self).watchpoints@,
                old(self).hit,
                r.is_ok(),
                Access { kind: AccessKind::Write, address, data: data as u32, len: 2 },
            ),
    {
        match self.bus.store_halfword(address, data) {
            Err(e) => Err(e),
            Ok(_) => {
                if contains_address(&self.watchpoints, address) {
                    self.hit = Some(
                        Access { kind: AccessKind::Write, address, data: data as u32, len: 2 },
                    );
                }
                Ok(())
            },
        }
    }

    /// Stores a word at `address` through the bus, recording the access when
    /// `address` is watched.
    pub fn store_word(&mut self, address: Address, data: u32) -> (r: Result<(), RmipsError>)
        requires
            old(self).wf(),
        ensures
            final(self).wf(),
            store_word_post(old(self).bus, final(self).bus, address, data, r),
            final(self).watchpoints == old(self).watchpoints,
            final(self).hit == recorded(
                old(self).watchpoints@,
                old(self).hit,
                r.is_ok(),
                Access { kind: AccessKind::Write, address, data, len: 4 },
            ),
    {
        match self.bus.store_word(address, data) {
            Err(e) => Err(e),
            Ok(_) => {
                if contains_address(&self.watchpoints, address) {
                    self.hit = Some(Access { kind: AccessKind::Write, address, data, len: 4 });
                }
                Ok(())
            },
        }
    }
}

/// Whether `x` occurs in `v`.
pub fn contains_address(v: &Vec<Address>, x: Address) -> (r: bool)
    ensures
        r == v@.contains(x),
{
    let n = v.len();
    let mut i: usize = 0;
    while i < n
        invariant
            n == v@.len(),
            0 <= i <= n,
            forall|j: int| 0 <= j < i ==> v@[j] != x,
        decreases n - i,
    {
        if v[i] == x {
            return true;
        }
        i = i + 1;
    }
    proof {
        assert(!v@.contains(x));
    }
    false
}

} // verus!
