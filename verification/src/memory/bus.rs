//! The memory bus: routes reads and writes to the device that owns the
//! address, and keeps device ranges disjoint.

use vstd::prelude::*;
use crate::devices::Device;
use crate::error::RmipsError;
use crate::memory::range::Range;
use crate::Address;

verus! {

/// Index of the first entry of `s` at or after `i` whose range contains `a`.
pub open spec fn spec_find_from(s: Seq<(Range, Device)>, a: Address, i: int) -> Option<int>
    decreases s.len() - i,
{
    if i < 0 || i >= s.len() {
        None
    } else if s[i].0.spec_contains(a) {
        Some(i)
    } else {
        spec_find_from(s, a, i + 1)
    }
}

/// Two ranges cover no common address.
pub open spec fn spec_disjoint(r1: Range, r2: Range) -> bool {
    r1.base + r1.size <= r2.base || r2.base + r2.size <= r1.base
}


/// Relation between a bus before and after a byte store at `a`: an unmapped
/// address fails and changes nothing; otherwise the owning device absorbs
/// the byte as its kind prescribes and every other device is untouched.
pub open spec fn store_byte_post(
    pre: Bus,
    post: Bus,
    a: Address,
    data: u8,
    r: Result<(), RmipsError>,
) -> bool {
    &&& post.ranges_match(pre)
    &&& match pre.spec_find(a) {
        None => r == Err::<(), RmipsError>(RmipsError::UnmappedAddress(a)) && post == pre,
        Some(i) => {
            let d = pre.devices@[i].1;
            let off = (a - pre.devices@[i].0.base) as u64;
            &&& r == crate::devices::kind_write_result(d.kind(), d.contents(), off, data)
            &&& post.devices@[i].1.contents() == crate::devices::kind_written(
                d.kind(),
                d.contents(),
                off,
                data,
            )
            &&& post.devices@[i].1.kind() == d.kind()
            &&& forall|j: int|
                0 <= j < pre.devices@.len() && j != i ==> post.devices@[j] == pre.devices@[j]
        },
    }
}

/// Relation between a bus before and after a halfword store at `a`.
pub open spec fn store_half_post(
    pre: Bus,
    post: Bus,
    a: Address,
    data: u16,
    r: Result<(), RmipsError>,
) -> bool {
    &&& post.ranges_match(pre)
    &&& match pre.spec_find(a) {
        None => r == Err::<(), RmipsError>(RmipsError::UnmappedAddress(a)) && post == pre,
        Some(i) => {
            let d = pre.devices@[i].1;
            let off = (a - pre.devices@[i].0.base) as u64;
            &&& r == d.spec_write_half_result(off, data)
            &&& post.devices@[i].1.contents() == d.spec_written_half(off, data)
            &&& post.devices@[i].1.kind() == d.kind()
            &&& forall|j: int|
                0 <= j < pre.devices@.len() && j != i ==> post.devices@[j] == pre.devices@[j]
        },
    }
}

/// Relation between a bus before and after a word store at `a`.
pub open spec fn store_word_post(
    pre: Bus,
    post: Bus,
    a: Address,
    data: u32,
    r: Result<(), RmipsError>,
) -> bool {
    &&& post.ranges_match(pre)
    &&& match pre.spec_find(a) {
        None => r == Err::<(), RmipsError>(RmipsError::UnmappedAddress(a)) && post == pre,
        Some(i) => {
            let d = pre.devices@[i].1;
            let off = (a - pre.devices@[i].0.base) as u64;
            &&& r == d.spec_write_word_result(off, data)
            &&& post.devices@[i].1.contents() == d.spec_written_word(off, data)
            &&& post.devices@[i].1.kind() == d.kind()
            &&& forall|j: int|
                0 <= j < pre.devices@.len() && j != i ==> post.devices@[j] == pre.devices@[j]
        },
    }
}

/// A container routing reads and writes to the correct address space.
///
/// Devices are keyed by half-open address ranges; the well-formedness
/// invariant keeps the ranges pairwise disjoint, so at most one device can
/// own any address.
#[derive(Debug)]
pub struct Bus {
    pub devices: Vec<(Range, Device)>,
}

impl Bus {
    /// Every registered range is sound and backed by a sound device, and no
    /// two ranges overlap.
    pub open spec fn wf(self) -> bool {
        &&& forall|i: int|
            0 <= i < self.devices@.len() ==> (#[trigger] self.devices@[i]).0.wf()
                && self.devices@[i].1.wf()
        &&& forall|i: int, j: int|
            0 <= i < j < self.devices@.len() ==> spec_disjoint(
                (#[trigger] self.devices@[i]).0,
                (#[trigger] self.devices@[j]).0,
            )
    }

    /// Index of the device whose range contains `a`.
    pub open spec fn spec_find(self, a: Address) -> Option<int> {
        spec_find_from(self.devices@, a, 0)
    }

    /// The ranges of two buses coincide entry by entry.
    pub open spec fn ranges_match(self, other: Bus) -> bool {
        &&& self.devices@.len() == other.devices@.len()
        &&& forall|i: int|
            0 <= i < self.devices@.len() ==> (#[trigger] self.devices@[i]).0
                == other.devices@[i].0
    }

    /// What a byte read at address `a` returns.
    pub open spec fn spec_fetch_byte(self, a: Address) -> Result<u8, RmipsError> {
        match self.spec_find(a) {
            None => Err(RmipsError::UnmappedAddress(a)),
            Some(i) => self.devices@[i].1.spec_read_byte((a - self.devices@[i].0.base) as u64),
        }
    }

    /// What a halfword read at address `a` returns.
    pub open spec fn spec_fetch_halfword(self, a: Address) -> Result<u16, RmipsError> {
        match self.spec_find(a) {
            None => Err(RmipsError::UnmappedAddress(a)),
            Some(i) => self.devices@[i].1.spec_read_half((a - self.devices@[i].0.base) as u64),
        }
    }

    /// What a word read at address `a` returns.
    pub open spec fn spec_fetch_word(self, a: Address) -> Result<u32, RmipsError> {
        match self.spec_find(a) {
            None => Err(RmipsError::UnmappedAddress(a)),
            Some(i) => self.devices@[i].1.spec_read_word((a - self.devices@[i].0.base) as u64),
        }
    }

    /// Returns a bus with no devices.
    pub fn new() -> (r: Self)
        ensures
            r.devices@.len() == 0,
            r.wf(),
    {
        Bus { devices: Vec::new() }
    }

    /// Registers `device` over the range `[base, base + size)`.
    ///
    /// Fails with `MemoryRangeOverlap`, changing nothing, when the range is
    /// empty or intersects a registered one; otherwise appends the device.
    pub fn register(&mut self, device: Device, base: Address, size: usize) -> (r: Result<
        (),
        RmipsError,
    >)
        requires
            old(self).wf(),
            device.wf(),
            base + size <= 0x1_0000_0000,
        ensures
            final(self).wf(),
            r.is_ok() <==> (size >= 1 && forall|i: int|
                0 <= i < old(self).devices@.len() ==> !(#[trigger] old(
                    self,
                ).devices@[i]).0.spec_overlaps(base, size)),
            r.is_ok() ==> final(self).devices@ == old(self).devices@.push(
                (Range { base, size }, device),
            ),
            !r.is_ok() ==> *final(self) == *old(self) && r == Err::<(), RmipsError>(
                RmipsError::MemoryRangeOverlap,
            ),
    {
        if size == 0 {
            return Err(RmipsError::MemoryRangeOverlap);
        }
        let n = self.devices.len();
        let mut i: usize = 0;
        while i < n
            invariant
                n == self.devices@.len(),
                0 <= i <= n,
                self == old(self),
                self.wf(),
                size >= 1,
                base + size <= 0x1_0000_0000,
                forall|j: int| 0 <= j < i ==> !(#[trigger] self.devices@[j]).0.spec_overlaps(
                    base,
                    size,
                ),
            decreases n - i,
        {
            let overlapping = self.devices[i].0.overlaps(base, size);
            if overlapping {
                return Err(RmipsError::MemoryRangeOverlap);
            }
            i = i + 1;
        }
        self.devices.push((Range { base, size }, device));
        proof {
            assert forall|p: int, q: int|
                0 <= p < q < self.devices@.len() implies spec_disjoint(
                (#[trigger] self.devices@[p]).0,
                (#[trigger] self.devices@[q]).0,
            ) by {
                if q == self.devices@.len() - 1 {
                    assert(!old(self).devices@[p].0.spec_overlaps(base, size));
                }
            }
        }
        Ok(())
    }

    /// Index of the device whose range contains `address`.
    pub fn find(&self, address: Address) -> (r: Option<usize>)
        requires
            self.wf(),
        ensures
            match r {
                Some(i) => {
                    &&& i < self.devices@.len()
                    &&& self.spec_find(address) == Some(i as int)
                    &&& self.devices@[i as int].0.spec_contains(address)
                },
                None => self.spec_find(address) is None,
            },
    {
        let n = self.devices.len();
        let mut i: usize = 0;
        while i < n
            invariant
                n == self.devices@.len(),
                0 <= i <= n,
                self.wf(),
                spec_find_from(self.devices@, address, 0) == spec_find_from(
                    self.devices@,
                    address,
                    i as int,
                ),
            decreases n - i,
        {
            if self.devices[i].0.contains(address) {
                return Some(i);
            }
            i = i + 1;
        }
        None
    }

    /// Reads the byte at `address`.
    pub fn fetch_byte(&self, address: Address) -> (r: Result<u8, RmipsError>)
        requires
            self.wf(),
        ensures
            r == self.spec_fetch_byte(address),
    {
        match self.find(address) {
            None => Err(RmipsError::UnmappedAddress(address)),
            Some(i) => {
                let base = self.devices[i].0.base;
                self.devices[i].1.read_byte((address - base) as u64)
            },
        }
    }

    /// Reads the little-endian halfword at `address`.
    pub fn fetch_halfword(&self, address: Address) -> (r: Result<u16, RmipsError>)
        requires
            self.wf(),
        ensures
            r == self.spec_fetch_halfword(address),
    {
        match self.find(address) {
            None => Err(RmipsError::UnmappedAddress(address)),
            Some(i) => {
                let base = self.devices[i].0.base;
                self.devices[i].1.read_half((address - base) as u64)
            },
        }
    }

    /// Reads the little-endian word at `address`.
    pub fn fetch_word(&self, address: Address) -> (r: Result<u32, RmipsError>)
        requires
            self.wf(),
        ensures
            r == self.spec_fetch_word(address),
    {
        match self.find(address) {
            None => Err(RmipsError::UnmappedAddress(address)),
            Some(i) => {
                let base = self.devices[i].0.base;
                self.devices[i].1.read_word((address - base) as u64)
            },
        }
    }

    /// Stores one byte at `address`.
    pub fn store_byte(&mut self, address: Address, data: u8) -> (r: Result<(), RmipsError>)
        requires
            old(self).wf(),
        ensures
            final(self).wf(),
            store_byte_post(*old(self), *final(self), address, data, r),
    {
        match self.find(address) {
            None => Err(RmipsError::UnmappedAddress(address)),
            Some(i) => {
                let base = self.devices[i].0.base;
                self.devices[i].1.write_byte((address - base) as u64, data)
            },
        }
    }

    /// Stores a little-endian halfword at `address`.
    pub fn store_halfword(&mut self, address: Address, data: u16) -> (r: Result<(), RmipsError>)
        requires
            old(self).wf(),
        ensures
            final(self).wf(),
            store_half_post(*old(self), *final(self), address, data, r),
    {
        match self.find(address) {
            None => Err(RmipsError::UnmappedAddress(address)),
            Some(i) => {
                let base = self.devices[i].0.base;
                self.devices[i].1.write_half((address - base) as u64, data)
            },
        }
    }

    /// Stores a little-endian word at `address`.
    pub fn store_word(&mut self, address: Address, data: u32) -> (r: Result<(), RmipsError>)
        requires
            old(self).wf(),
        ensures
            final(self).wf(),
            store_word_post(*old(self), *final(self), address, data, r),
    {
        match self.find(address) {
            None => Err(RmipsError::UnmappedAddress(address)),
            Some(i) => {
                let base = self.devices[i].0.base;
                self.devices[i].1.write_word((address - base) as u64, data)
            },
        }
    }
}

/// Under the bus invariant, at most one device contains any address: the
/// first match is the only match.
pub proof fn lemma_find_unique(bus: Bus, a: Address, i: int)
    requires
        bus.wf(),
        0 <= i < bus.devices@.len(),
        bus.devices@[i].0.spec_contains(a),
    ensures
        bus.spec_find(a) == Some(i),
{
    lemma_find_from_unique(bus.devices@, a, 0, i);
}

proof fn lemma_find_from_unique(s: Seq<(Range, Device)>, a: Address, lo: int, i: int)
    requires
        forall|p: int, q: int|
            0 <= p < q < s.len() ==> spec_disjoint((#[trigger] s[p]).0, (#[trigger] s[q]).0),
        forall|p: int| 0 <= p < s.len() ==> (#[trigger] s[p]).0.wf(),
        0 <= lo <= i < s.len(),
        s[i].0.spec_contains(a),
    ensures
        spec_find_from(s, a, lo) == Some(i),
    decreases s.len() - lo,
{
    if lo == i {
    } else {
        assert(spec_disjoint(s[lo].0, s[i].0));
        assert(!s[lo].0.spec_contains(a));
        lemma_find_from_unique(s, a, lo + 1, i);
    }
}


/// A found index points at a range that contains the address.
pub proof fn lemma_find_contains(bus: Bus, a: Address)
    requires
        bus.spec_find(a) is Some,
    ensures
        0 <= bus.spec_find(a)->Some_0 < bus.devices@.len(),
        bus.devices@[bus.spec_find(a)->Some_0].0.spec_contains(a),
{
    lemma_find_from_contains(bus.devices@, a, 0);
}

proof fn lemma_find_from_contains(s: Seq<(Range, Device)>, a: Address, lo: int)
    requires
        spec_find_from(s, a, lo) is Some,
    ensures
        lo <= spec_find_from(s, a, lo)->Some_0 < s.len(),
        s[spec_find_from(s, a, lo)->Some_0].0.spec_contains(a),
    decreases s.len() - lo,
{
    if 0 <= lo < s.len() {
        if s[lo].0.spec_contains(a) {
        } else {
            lemma_find_from_contains(s, a, lo + 1);
        }
    }
}

/// Two buses with matching ranges route every address to the same index.
pub proof fn lemma_find_ranges_match(b1: Bus, b2: Bus, a: Address)
    requires
        b1.ranges_match(b2),
    ensures
        b1.spec_find(a) == b2.spec_find(a),
{
    lemma_find_from_ranges_match(b1.devices@, b2.devices@, a, 0);
}

proof fn lemma_find_from_ranges_match(
    s1: Seq<(Range, Device)>,
    s2: Seq<(Range, Device)>,
    a: Address,
    i: int,
)
    requires
        s1.len() == s2.len(),
        forall|j: int| 0 <= j < s1.len() ==> (#[trigger] s1[j]).0 == s2[j].0,
    ensures
        spec_find_from(s1, a, i) == spec_find_from(s2, a, i),
    decreases s1.len() - i,
{
    if 0 <= i < s1.len() {
        lemma_find_from_ranges_match(s1, s2, a, i + 1);
    }
}


/// No two registered device ranges overlap: for every pair, one ends at or
/// before the other begins.
pub proof fn lemma_registered_ranges_disjoint(bus: Bus, i: int, j: int)
    requires
        bus.wf(),
        0 <= i < bus.devices@.len(),
        0 <= j < bus.devices@.len(),
        i != j,
    ensures
        bus.devices@[i].0.base + bus.devices@[i].0.size <= bus.devices@[j].0.base
            || bus.devices@[j].0.base + bus.devices@[j].0.size <= bus.devices@[i].0.base,
{
}

/// Splitting a word into its little-endian bytes and reassembling them
/// yields the word back.
pub proof fn lemma_word_bytes_round_trip(w: u32)
    by (bit_vector)
    ensures
        crate::devices::le_word(
            (w % 0x100) as u8,
            ((w / 0x100) % 0x100) as u8,
            ((w / 0x1_0000) % 0x100) as u8,
            ((w / 0x100_0000) % 0x100) as u8,
        ) == w,
{
}

/// Splitting a halfword into its little-endian bytes and reassembling them
/// yields the halfword back.
pub proof fn lemma_half_bytes_round_trip(h: u16)
    by (bit_vector)
    ensures
        crate::devices::le_half((h % 0x100) as u8, ((h / 0x100) % 0x100) as u8) == h,
{
}

/// Storing a byte into RAM and fetching it back at the same address yields
/// the stored byte.
pub proof fn lemma_store_fetch_byte(pre: Bus, post: Bus, a: Address, v: u8)
    requires
        pre.wf(),
        store_byte_post(pre, post, a, v, Ok(())),
        pre.spec_find(a) is Some,
        pre.devices@[pre.spec_find(a)->Some_0].1.kind() == crate::devices::DevKind::Ram,
    ensures
        post.spec_fetch_byte(a) == Ok::<u8, RmipsError>(v),
{
    let i = pre.spec_find(a)->Some_0;
    lemma_find_contains(pre, a);
    lemma_find_ranges_match(post, pre, a);
    let off = (a - pre.devices@[i].0.base) as u64;
    let c = pre.devices@[i].1.contents();
    assert(crate::devices::kind_write_result(crate::devices::DevKind::Ram, c, off, v) is Ok);
    assert(off < c.len());
    assert(post.devices@[i].0 == pre.devices@[i].0);
    assert(post.devices@[i].1.contents() == c.update(off as int, v));
}

/// Storing a word into RAM and fetching it back at the same address yields
/// the stored word.
pub proof fn lemma_store_fetch_word(pre: Bus, post: Bus, a: Address, w: u32)
    requires
        pre.wf(),
        store_word_post(pre, post, a, w, Ok(())),
        pre.spec_find(a) is Some,
        pre.devices@[pre.spec_find(a)->Some_0].1.kind() == crate::devices::DevKind::Ram,
    ensures
        post.spec_fetch_word(a) == Ok::<u32, RmipsError>(w),
{
    let i = pre.spec_find(a)->Some_0;
    lemma_find_contains(pre, a);
    lemma_find_ranges_match(post, pre, a);
    assert(post.devices@[i].0 == pre.devices@[i].0);
    let d = pre.devices@[i].1;
    let off = (a - pre.devices@[i].0.base) as u64;
    // The range fits inside the address space, so the offsets of the four
    // bytes do not wrap.
    assert(pre.devices@[i].0.wf());
    assert(off < 0x1_0000_0000);
    let c = d.contents();
    let b0 = crate::devices::word_byte(w, 0);
    let b1 = crate::devices::word_byte(w, 1);
    let b2 = crate::devices::word_byte(w, 2);
    let b3 = crate::devices::word_byte(w, 3);
    // Each of the four byte writes stayed inside the buffer, which the
    // updates keep the same length.
    assert(off < c.len());
    let c0 = crate::devices::kind_written(crate::devices::DevKind::Ram, c, off, b0);
    assert(c0.len() == c.len());
    assert(off + 1 < c.len());
    let c1 = crate::devices::kind_written(
        crate::devices::DevKind::Ram,
        c0,
        (off + 1) as u64,
        b1,
    );
    assert(c1.len() == c.len());
    assert(off + 2 < c.len());
    let c2 = crate::devices::kind_written(
        crate::devices::DevKind::Ram,
        c1,
        (off + 2) as u64,
        b2,
    );
    assert(off + 3 < c.len());
    let c3 = crate::devices::kind_written(
        crate::devices::DevKind::Ram,
        c2,
        (off + 3) as u64,
        b3,
    );
    assert(post.devices@[i].1.contents() == c3);
    assert(c3[off as int] == b0);
    assert(c3[off as int + 1] == b1);
    assert(c3[off as int + 2] == b2);
    assert(c3[off as int + 3] == b3);
    lemma_word_bytes_round_trip(w);
    assert(post.spec_fetch_word(a) == Ok::<u32, RmipsError>(
        crate::devices::le_word(b0, b1, b2, b3),
    ));
}

/// Storing a halfword into RAM and fetching it back at the same address
/// yields the stored halfword.
pub proof fn lemma_store_fetch_half(pre: Bus, post: Bus, a: Address, h: u16)
    requires
        pre.wf(),
        store_half_post(pre, post, a, h, Ok(())),
        pre.spec_find(a) is Some,
        pre.devices@[pre.spec_find(a)->Some_0].1.kind() == crate::devices::DevKind::Ram,
    ensures
        post.spec_fetch_halfword(a) == Ok::<u16, RmipsError>(h),
{
    let i = pre.spec_find(a)->Some_0;
    lemma_find_contains(pre, a);
    lemma_find_ranges_match(post, pre, a);
    assert(post.devices@[i].0 == pre.devices@[i].0);
    let d = pre.devices@[i].1;
    let off = (a - pre.devices@[i].0.base) as u64;
    // The range fits inside the address space, so the offsets of the two
    // bytes do not wrap.
    assert(pre.devices@[i].0.wf());
    assert(off < 0x1_0000_0000);
    let c = d.contents();
    let b0 = crate::devices::half_byte(h, 0);
    let b1 = crate::devices::half_byte(h, 1);
    assert(off < c.len());
    let c0 = crate::devices::kind_written(crate::devices::DevKind::Ram, c, off, b0);
    assert(c0.len() == c.len());
    assert(off + 1 < c.len());
    let c1 = crate::devices::kind_written(
        crate::devices::DevKind::Ram,
        c0,
        (off + 1) as u64,
        b1,
    );
    assert(post.devices@[i].1.contents() == c1);
    assert(c1[off as int] == b0);
    assert(c1[off as int + 1] == b1);
    lemma_half_bytes_round_trip(h);
    assert(post.spec_fetch_halfword(a) == Ok::<u16, RmipsError>(
        crate::devices::le_half(b0, b1),
    ));
}

} // verus!
