//! Emulated hardware devices and the byte-level access discipline they share.
//!
//! Every device serves single-byte reads and writes at a device-local
//! offset. Word and halfword transfers are assembled from byte transfers in
//! little-endian order, low byte first.

use vstd::prelude::*;
use crate::error::RmipsError;
use crate::memory::ram::Ram;
use crate::memory::rom::Rom;

pub mod halt_device;
pub mod test_device;

pub use halt_device::HaltDevice;
pub use test_device::TestDevice;

verus! {

/// The sorts of device the bus can route to.
#[derive(Debug, Clone, Copy, PartialEq, Eq, Structural)]
pub enum DevKind {
    Ram,
    Rom,
    Halt,
    Test,
}

/// What a byte read at offset `off` returns from a device of kind `k` with
/// backing bytes `c`: RAM and ROM serve their buffer and reject offsets past
/// its end, the halt device reads as zero, and the test device serves its
/// scratch byte.
pub open spec fn kind_read_byte(k: DevKind, c: Seq<u8>, off: u64) -> Result<u8, RmipsError> {
    match k {
        DevKind::Ram | DevKind::Rom => if off < c.len() {
            Ok(c[off as int])
        } else {
            Err(RmipsError::MemoryRead(off as u32))
        },
        DevKind::Halt => Ok(0u8),
        DevKind::Test => Ok(c[0]),
    }
}

/// The result of a byte write at offset `off` to a device of kind `k` with
/// backing bytes `c`: RAM and ROM reject offsets past their end, the halt
/// device signals `Halt` for any non-zero byte, and every other write
/// succeeds.
pub open spec fn kind_write_result(k: DevKind, c: Seq<u8>, off: u64, v: u8) -> Result<
    (),
    RmipsError,
> {
    match k {
        DevKind::Ram | DevKind::Rom => if off < c.len() {
            Ok(())
        } else {
            Err(RmipsError::MemoryWrite(off as u32))
        },
        DevKind::Halt => if v != 0 {
            Err(RmipsError::Halt)
        } else {
            Ok(())
        },
        DevKind::Test => Ok(()),
    }
}

/// The backing bytes after a byte write at offset `off` to a device of kind
/// `k`: RAM and ROM store in place and drop out-of-range writes, the halt
/// device stores nothing, and the test device stores into its scratch byte.
pub open spec fn kind_written(k: DevKind, c: Seq<u8>, off: u64, v: u8) -> Seq<u8> {
    match k {
        DevKind::Ram | DevKind::Rom => if off < c.len() {
            c.update(off as int, v)
        } else {
            c
        },
        DevKind::Halt => c,
        DevKind::Test => c.update(0, v),
    }
}

/// The low-to-high bytes `b0..b3` assembled into a word, little-endian.
pub open spec fn le_word(b0: u8, b1: u8, b2: u8, b3: u8) -> u32 {
    (b0 + b1 * 0x100 + b2 * 0x1_0000 + b3 * 0x100_0000) as u32
}

/// The two bytes `b0`, `b1` assembled into a halfword, little-endian.
pub open spec fn le_half(b0: u8, b1: u8) -> u16 {
    (b0 + b1 * 0x100) as u16
}

/// Byte `i` of the word `w`, little-endian: byte 0 is the low byte.
pub open spec fn word_byte(w: u32, i: int) -> u8 {
    if i == 0 {
        (w % 0x100) as u8
    } else if i == 1 {
        ((w / 0x100) % 0x100) as u8
    } else if i == 2 {
        ((w / 0x1_0000) % 0x100) as u8
    } else {
        ((w / 0x100_0000) % 0x100) as u8
    }
}

/// Byte `i` of the halfword `h`, little-endian.
pub open spec fn half_byte(h: u16, i: int) -> u8 {
    if i == 0 {
        (h % 0x100) as u8
    } else {
        ((h / 0x100) % 0x100) as u8
    }
}

/// A device that the bus can route byte reads and writes to.
#[derive(Debug)]
pub enum Device {
    Ram(Ram),
    Rom(Rom),
    Halt(HaltDevice),
    Test(TestDevice),
}

impl Device {
    /// The sort of this device.
    pub open spec fn kind(self) -> DevKind {
        match self {
            Device::Ram(_) => DevKind::Ram,
            Device::Rom(_) => DevKind::Rom,
            Device::Halt(_) => DevKind::Halt,
            Device::Test(_) => DevKind::Test,
        }
    }

    /// The bytes the device backs; the halt device backs none.
    pub open spec fn contents(self) -> Seq<u8> {
        match self {
            Device::Ram(d) => d.data@,
            Device::Rom(d) => d.data@,
            Device::Halt(_) => Seq::empty(),
            Device::Test(d) => d.data@,
        }
    }

    /// Structural soundness of a device: the test device's scratch buffer
    /// has its fixed size.
    pub open spec fn wf(self) -> bool {
        match self {
            Device::Test(d) => d.data@.len() == test_device::DATA_LEN,
            _ => true,
        }
    }

    /// Number of bytes the device is mapped over by default.
    pub open spec fn spec_len(self) -> int {
        match self {
            Device::Halt(_) => halt_device::DATA_LEN as int,
            _ => self.contents().len() as int,
        }
    }

    /// What a byte read at device offset `off` returns.
    pub open spec fn spec_read_byte(self, off: u64) -> Result<u8, RmipsError> {
        kind_read_byte(self.kind(), self.contents(), off)
    }

    /// What a word read at device offset `off` returns: four byte reads,
    /// assembled little-endian, or the first read error.
    pub open spec fn spec_read_word(self, off: u64) -> Result<u32, RmipsError> {
        let k = self.kind();
        let c = self.contents();
        match kind_read_byte(k, c, off) {
            Err(e) => Err(e),
            Ok(b0) => match kind_read_byte(k, c, (off + 1) as u64) {
                Err(e) => Err(e),
                Ok(b1) => match kind_read_byte(k, c, (off + 2) as u64) {
                    Err(e) => Err(e),
                    Ok(b2) => match kind_read_byte(k, c, (off + 3) as u64) {
                        Err(e) => Err(e),
                        Ok(b3) => Ok(le_word(b0, b1, b2, b3)),
                    },
                },
            },
        }
    }

    /// What a halfword read at device offset `off` returns.
    pub open spec fn spec_read_half(self, off: u64) -> Result<u16, RmipsError> {
        let k = self.kind();
        let c = self.contents();
        match kind_read_byte(k, c, off) {
            Err(e) => Err(e),
            Ok(b0) => match kind_read_byte(k, c, (off + 1) as u64) {
                Err(e) => Err(e),
                Ok(b1) => Ok(le_half(b0, b1)),
            },
        }
    }

    /// The device's backing bytes after a word write at offset `off`: the
    /// four bytes of `w` stored low byte first. A write that fails midway
    /// keeps the bytes stored before the failure.
    pub open spec fn spec_written_word(self, off: u64, w: u32) -> Seq<u8> {
        let k = self.kind();
        let c0 = kind_written(k, self.contents(), off, word_byte(w, 0));
        let c1 = kind_written(k, c0, (off + 1) as u64, word_byte(w, 1));
        let c2 = kind_written(k, c1, (off + 2) as u64, word_byte(w, 2));
        kind_written(k, c2, (off + 3) as u64, word_byte(w, 3))
    }

    /// The result of a word write at offset `off`: the first byte-write
    /// error, if any.
    pub open spec fn spec_write_word_result(self, off: u64, w: u32) -> Result<(), RmipsError> {
        let k = self.kind();
        let c = self.contents();
        match kind_write_result(k, c, off, word_byte(w, 0)) {
            Err(e) => Err(e),
            Ok(_) => {
                let c0 = kind_written(k, c, off, word_byte(w, 0));
                match kind_write_result(k, c0, (off + 1) as u64, word_byte(w, 1)) {
                    Err(e) => Err(e),
                    Ok(_) => {
                        let c1 = kind_written(k, c0, (off + 1) as u64, word_byte(w, 1));
                        match kind_write_result(k, c1, (off + 2) as u64, word_byte(w, 2)) {
                            Err(e) => Err(e),
                            Ok(_) => {
                                let c2 = kind_written(k, c1, (off + 2) as u64, word_byte(w, 2));
                                kind_write_result(k, c2, (off + 3) as u64, word_byte(w, 3))
                            },
                        }
                    },
                }
            },
        }
    }

    /// The device's backing bytes after a halfword write at offset `off`.
    pub open spec fn spec_written_half(self, off: u64, h: u16) -> Seq<u8> {
        let k = self.kind();
        let c0 = kind_written(k, self.contents(), off, half_byte(h, 0));
        kind_written(k, c0, (off + 1) as u64, half_byte(h, 1))
    }

    /// The result of a halfword write at offset `off`.
    pub open spec fn spec_write_half_result(self, off: u64, h: u16) -> Result<(), RmipsError> {
        let k = self.kind();
        let c = self.contents();
        match kind_write_result(k, c, off, half_byte(h, 0)) {
            Err(e) => Err(e),
            Ok(_) => {
                let c0 = kind_written(k, c, off, half_byte(h, 0));
                kind_write_result(k, c0, (off + 1) as u64, half_byte(h, 1))
            },
        }
    }

    /// Reads one byte at device offset `off`.
    pub fn read_byte(&self, off: u64) -> (r: Result<u8, RmipsError>)
        requires
            self.wf(),
        ensures
            r == self.spec_read_byte(off),
    {
        match self {
            Device::Ram(d) => {
                if off < d.data.len() as u64 {
                    Ok(d.data[off as usize])
                } else {
                    Err(RmipsError::MemoryRead(off as u32))
                }
            },
            Device::Rom(d) => {
                if off < d.data.len() as u64 {
                    Ok(d.data[off as usize])
                } else {
                    Err(RmipsError::MemoryRead(off as u32))
                }
            },
            Device::Halt(_) => Ok(0u8),
            Device::Test(d) => Ok(d.data[0]),
        }
    }

    /// Writes one byte at device offset `off`.
    pub fn write_byte(&mut self, off: u64, v: u8) -> (r: Result<(), RmipsError>)
        requires
            old(self).wf(),
        ensures
            r == kind_write_result(old(self).kind(), old(self).contents(), off, v),
            final(self).contents() == kind_written(old(self).kind(), old(self).contents(), off, v),
            final(self).kind() == old(self).kind(),
            final(self).wf(),
    {
        match self {
            Device::Ram(d) => {
                if off < d.data.len() as u64 {
                    d.data[off as usize] = v;
                    Ok(())
                } else {
                    Err(RmipsError::MemoryWrite(off as u32))
                }
            },
            Device::Rom(d) => {
                if off < d.data.len() as u64 {
                    d.data[off as usize] = v;
                    Ok(())
                } else {
                    Err(RmipsError::MemoryWrite(off as u32))
                }
            },
            Device::Halt(_) => {
                if v != 0 {
                    Err(RmipsError::Halt)
                } else {
                    Ok(())
                }
            },
            Device::Test(d) => {
                d.data[0] = v;
                Ok(())
            },
        }
    }

    /// Reads a little-endian word as four byte reads at `off` and up.
    pub fn read_word(&self, off: u64) -> (r: Result<u32, RmipsError>)
        requires
            self.wf(),
            off <= 0xffff_ffff,
        ensures
            r == self.spec_read_word(off),
    {
        let b0 = match self.read_byte(off) {
            Ok(b) => b,
            Err(e) => {
                return Err(e);
            },
        };
        let b1 = match self.read_byte(off + 1) {
            Ok(b) => b,
            Err(e) => {
                return Err(e);
            },
        };
        let b2 = match self.read_byte(off + 2) {
            Ok(b) => b,
            Err(e) => {
                return Err(e);
            },
        };
        let b3 = match self.read_byte(off + 3) {
            Ok(b) => b,
            Err(e) => {
                return Err(e);
            },
        };
        Ok(b0 as u32 + (b1 as u32) * 0x100 + (b2 as u32) * 0x1_0000 + (b3 as u32) * 0x100_0000)
    }

    /// Reads a little-endian halfword as two byte reads at `off` and up.
    pub fn read_half(&self, off: u64) -> (r: Result<u16, RmipsError>)
        requires
            self.wf(),
            off <= 0xffff_ffff,
        ensures
            r == self.spec_read_half(off),
    {
        let b0 = match self.read_byte(off) {
            Ok(b) => b,
            Err(e) => {
                return Err(e);
            },
        };
        let b1 = match self.read_byte(off + 1) {
            Ok(b) => b,
            Err(e) => {
                return Err(e);
            },
        };
        Ok(b0 as u16 + (b1 as u16) * 0x100)
    }

    /// Writes a little-endian word as four byte writes at `off` and up,
    /// stopping at the first failure.
    pub fn write_word(&mut self, off: u64, w: u32) -> (r: Result<(), RmipsError>)
        requires
            old(self).wf(),
            off <= 0xffff_ffff,
        ensures
            r == old(self).spec_write_word_result(off, w),
            final(self).contents() == old(self).spec_written_word(off, w),
            final(self).kind() == old(self).kind(),
            final(self).wf(),
    {
        let b0 = (w % 0x100) as u8;
        let b1 = ((w / 0x100) % 0x100) as u8;
        let b2 = ((w / 0x1_0000) % 0x100) as u8;
        let b3 = ((w / 0x100_0000) % 0x100) as u8;
        match self.write_byte(off, b0) {
            Ok(_) => (),
            Err(e) => {
                return Err(e);
            },
        }
        match self.write_byte(off + 1, b1) {
            Ok(_) => (),
            Err(e) => {
                return Err(e);
            },
        }
        match self.write_byte(off + 2, b2) {
            Ok(_) => (),
            Err(e) => {
                return Err(e);
            },
        }
        self.write_byte(off + 3, b3)
    }

    /// Writes a little-endian halfword as two byte writes at `off` and up,
    /// stopping at the first failure.
    pub fn write_half(&mut self, off: u64, h: u16) -> (r: Result<(), RmipsError>)
        requires
            old(self).wf(),
            off <= 0xffff_ffff,
        ensures
            r == old(self).spec_write_half_result(off, h),
            final(self).contents() == old(self).spec_written_half(off, h),
            final(self).kind() == old(self).kind(),
            final(self).wf(),
    {
        let b0 = (h % 0x100) as u8;
        let b1 = ((h / 0x100) % 0x100) as u8;
        match self.write_byte(off, b0) {
            Ok(_) => (),
            Err(e) => {
                return Err(e);
            },
        }
        self.write_byte(off + 1, b1)
    }

    /// Number of bytes the device is mapped over by default.
    pub fn len(&self) -> (r: usize)
        ensures
            r == self.spec_len(),
    {
        match self {
            Device::Ram(d) => d.data.len(),
            Device::Rom(d) => d.data.len(),
            Device::Halt(_) => 4,
            Device::Test(d) => d.data.len(),
        }
    }
}

} // verus!
