//! CP0, the system control coprocessor: virtual-to-physical address
//! translation and exception entry bookkeeping.

use vstd::prelude::*;
use crate::bits::{spec_get_bit, spec_set_bit, spec_set_field};
use crate::constants::{KSEG0, KSEG1, KSEG2};
use crate::exception::{spec_exception_code, ExceptionCode};
use crate::registers::{BadVaddrRegister, CauseRegister, ContextRegister, EpcRegister,
    IndexRegister, PridRegister, RandomRegister, StatusRegister};
use crate::registers::status::{spec_status_pop, spec_status_push};
use crate::tlbentry::TlbEntry;
use crate::Address;

verus! {

/// Number of TLB slots.
pub open spec fn spec_tlb_entries() -> int {
    64
}

/// Upper bound that the Random register's value field is reset to.
pub open spec fn spec_random_upper_bound() -> u32 {
    63
}

/// The physical address that `translate` yields for a kernel-space address
/// touched from user mode; the caller treats it as an address error.
pub open spec fn spec_translate_sentinel() -> u32 {
    0xffff_ffff
}

/// Whether a TLB entry translates the page of EntryHi value `hi`: the
/// virtual page numbers agree, and the entry is global or the
/// address-space identifiers agree.
pub open spec fn spec_tlb_entry_match(e: TlbEntry, hi: u32) -> bool {
    &&& e.entryhi & 0xffff_f000 == hi & 0xffff_f000
    &&& (spec_get_bit(e.entrylo, 8) || e.entryhi & 0x0fc0 == hi & 0x0fc0)
}

/// Index of the first TLB entry at or after `i` that matches `hi`.
pub open spec fn spec_tlb_probe(tlb: Seq<TlbEntry>, hi: u32, i: int) -> Option<int>
    decreases tlb.len() - i,
{
    if i < 0 || i >= tlb.len() {
        None
    } else if spec_tlb_entry_match(tlb[i], hi) {
        Some(i)
    } else {
        spec_tlb_probe(tlb, hi, i + 1)
    }
}

/// The Cause register value written by an exception entry: the numeric code
/// in ExcCode, the CE field naming a coprocessor for a coprocessor-unusable
/// cause, and BD when the faulting instruction sat in a delay slot.
pub open spec fn spec_cause_entry(code: ExceptionCode, delayslot: bool) -> u32 {
    let with_ce = if code == ExceptionCode::CoprocessorUnusable {
        spec_set_field(0u32, 28, 2, 2)
    } else {
        0u32
    };
    let with_code = spec_set_field(with_ce, 2, 5, spec_exception_code(code));
    if delayslot {
        spec_set_bit(with_code, 31, true)
    } else {
        with_code
    }
}

/// The system control coprocessor.
///
/// Holds the architecturally named registers as typed bit-field structs, the
/// staged EntryHi/EntryLo pair, and the 64 TLB slots.
#[derive(Debug)]
pub struct CPZero {
    pub index: IndexRegister,
    pub random: RandomRegister,
    pub entrylo: u32,
    pub context: ContextRegister,
    pub badvaddr: BadVaddrRegister,
    pub entryhi: u32,
    pub status: StatusRegister,
    pub cause: CauseRegister,
    pub epc: EpcRegister,
    pub prid: PridRegister,
    /// Set when the pending TLB miss came from user space, which selects the
    /// dedicated user-miss exception vector.
    pub tlb_miss_user: bool,
    /// The TLB slots; always exactly 64.
    pub tlb: Vec<TlbEntry>,
}

impl CPZero {
    /// The TLB always holds exactly 64 slots.
    pub open spec fn wf(self) -> bool {
        self.tlb@.len() == spec_tlb_entries()
    }

    /// Physical address that this coprocessor state assigns to the virtual
    /// address `v`.
    ///
    /// In kernel mode, kseg0 maps to `v - 0x8000_0000`, kseg1 to
    /// `v - 0xa000_0000`, and kuseg and kseg2 go through the TLB, which is
    /// stubbed as the identity. In user mode a kernel-space address yields
    /// the sentinel `0xffff_ffff`.
    pub open spec fn spec_translate(self, v: u32) -> u32 {
        if self.status.spec_kernel_mode() {
            if v < KSEG0 {
                v
            } else if v < KSEG1 {
                (v - KSEG0) as u32
            } else if v < KSEG2 {
                (v - KSEG1) as u32
            } else {
                v
            }
        } else {
            if v >= KSEG0 {
                spec_translate_sentinel()
            } else {
                v
            }
        }
    }

    /// Returns a coprocessor in its all-bits-zero power-on state.
    pub fn new() -> (r: Self)
        ensures
            r.wf(),
            r.index.bits == 0,
            r.random.bits == 0,
            r.entrylo == 0,
            r.context.bits == 0,
            r.badvaddr.address == 0,
            r.entryhi == 0,
            r.status.bits == 0,
            r.cause.bits == 0,
            r.epc.address == 0,
            r.prid.bits == 0,
            !r.tlb_miss_user,
            forall|i: int| 0 <= i < 64 ==> r.tlb@[i] == (TlbEntry { entryhi: 0, entrylo: 0 }),
    {
        CPZero {
            index: IndexRegister::new(),
            random: RandomRegister::new(),
            entrylo: 0,
            context: ContextRegister::new(),
            badvaddr: BadVaddrRegister::new(),
            entryhi: 0,
            status: StatusRegister::new(),
            cause: CauseRegister::new(),
            epc: EpcRegister::new(),
            prid: PridRegister::new(),
            tlb_miss_user: false,
            tlb: vec![TlbEntry { entryhi: 0, entrylo: 0 }; 64],
        }
    }

    /// Resets the control registers to their power-on states: the Random
    /// register's value to its upper bound 63, the bootstrap exception
    /// vectors on, kernel mode, interrupts disabled, TS and SwC clear, and
    /// the R3000A revision identifier in PRId.
    pub fn reset(&mut self)
        ensures
            final(self).wf() == old(self).wf(),
            final(self).random.spec_value() == spec_random_upper_bound(),
            final(self).random.bits == spec_set_field(old(self).random.bits, 8, 6, 63),
            final(self).status.spec_bootstrap_mode(),
            final(self).status.spec_kernel_mode(),
            !final(self).status.spec_interrupts_enabled(),
            !spec_get_bit(final(self).status.bits, 21),
            !spec_get_bit(final(self).status.bits, 17),
            final(self).status.bits == spec_reset_status(old(self).status.bits),
            forall|j: u32|
                j < 32 && j != 0 && j != 1 && j != 17 && j != 21 && j != 22 ==> spec_get_bit(
                    final(self).status.bits,
                    j,
                ) == spec_get_bit(old(self).status.bits, j),
            old(self).status.bits == 0 ==> final(self).status.bits == 0x0040_0000,
            final(self).prid.bits == 0x230,
            final(self).index == old(self).index,
            final(self).entrylo == old(self).entrylo,
            final(self).context == old(self).context,
            final(self).badvaddr == old(self).badvaddr,
            final(self).entryhi == old(self).entryhi,
            final(self).cause == old(self).cause,
            final(self).epc == old(self).epc,
            final(self).tlb_miss_user == old(self).tlb_miss_user,
            final(self).tlb == old(self).tlb,
    {
        self.random.set_value(63);
        self.status.enter_bootstrap();
        self.status.enter_kernel_mode();
        self.status.disable_interrupts();
        self.status.clear_ts();
        self.status.clear_swc();
        self.prid.bits = 0x230;
        proof {
            let rb: u32 = old(self).random.bits;
            assert(crate::bits::spec_get_field(spec_set_field(rb, 8, 6, 63), 8, 6) == 63)
                by (bit_vector);
            lemma_reset_status_bits(old(self).status.bits);
            assert forall|j: u32|
                j < 32 && j != 0 && j != 1 && j != 17 && j != 21 && j != 22 implies spec_get_bit(
                spec_reset_status(old(self).status.bits),
                j,
            ) == spec_get_bit(old(self).status.bits, j) by {
                lemma_reset_status_preserves_other(old(self).status.bits, j);
            }
            assert(spec_reset_status(0u32) == 0x0040_0000u32) by (bit_vector);
        }
    }

    /// Translates a virtual address to a physical address.
    ///
    /// kuseg and kseg2 addresses go through the TLB, which is stubbed as the
    /// identity translation.
    pub fn translate(&self, vaddress: Address) -> (r: Address)
        ensures
            r == self.spec_translate(vaddress),
            self.status.spec_kernel_mode() && KSEG0 <= vaddress < KSEG1 ==> r == vaddress
                - 0x8000_0000,
            self.status.spec_kernel_mode() && KSEG1 <= vaddress < KSEG2 ==> r == vaddress
                - 0xa000_0000,
            !self.status.spec_kernel_mode() && vaddress >= KSEG0 ==> r
                == spec_translate_sentinel(),
    {
        if self.kernel_mode() {
            if vaddress < KSEG0 {
                self.tlb_translate(crate::constants::KUSEG, vaddress)
            } else if vaddress < KSEG1 {
                vaddress - KSEG0
            } else if vaddress < KSEG2 {
                vaddress - KSEG1
            } else {
                self.tlb_translate(KSEG2, vaddress)
            }
        } else if vaddress >= KSEG0 {
            0xffff_ffff
        } else {
            self.tlb_translate(crate::constants::KUSEG, vaddress)
        }
    }

    /// TLB translation of a mapped-segment address, stubbed as the identity.
    fn tlb_translate(&self, _segment: Address, vaddress: Address) -> (r: Address)
        ensures
            r == vaddress,
    {
        vaddress
    }

    /// Enters an exception: saves the restart address in EPC, pushes the
    /// KU/IE stack into kernel mode with interrupts disabled, and rewrites
    /// the Cause register.
    ///
    /// When the faulting instruction sat in a branch delay slot, EPC points
    /// at the branch that precedes it and Cause.BD is set. For a
    /// coprocessor-unusable cause the CE field is provisionally set to 2;
    /// the dispatcher overwrites it with the offending coprocessor number.
    pub fn exception(&mut self, pc: Address, code: ExceptionCode, delayslot: bool)
        ensures
            final(self).epc.address == if delayslot {
                pc.wrapping_sub(4)
            } else {
                pc
            },
            final(self).status.bits == spec_status_push(old(self).status.bits),
            final(self).status.spec_kernel_mode(),
            !final(self).status.spec_interrupts_enabled(),
            final(self).cause.bits == spec_cause_entry(code, delayslot),
            final(self).cause.spec_branch_delay() == delayslot,
            final(self).cause.spec_exception_field() == spec_exception_code(code),
            final(self).index == old(self).index,
            final(self).random == old(self).random,
            final(self).entrylo == old(self).entrylo,
            final(self).context == old(self).context,
            final(self).badvaddr == old(self).badvaddr,
            final(self).entryhi == old(self).entryhi,
            final(self).prid == old(self).prid,
            final(self).tlb_miss_user == old(self).tlb_miss_user,
            final(self).tlb == old(self).tlb,
    {
        self.epc.address = if delayslot {
            pc.wrapping_sub(4)
        } else {
            pc
        };
        self.status.push_mode_stack();
        self.cause.bits = 0;
        if matches!(code, ExceptionCode::CoprocessorUnusable) {
            self.cause.set_coprocessor_error(2);
        }
        self.cause.set_exception_code(code);
        if delayslot {
            self.cause.set_branch_delay();
        }
        proof {
            lemma_status_push_clears_current(old(self).status.bits);
            let c: u32 = spec_exception_code(code);
            let ce: u32 = if code == ExceptionCode::CoprocessorUnusable {
                spec_set_field(0u32, 28, 2, 2)
            } else {
                0u32
            };
            assert(!spec_get_bit(0u32, 31) && !spec_get_bit(spec_set_field(0u32, 28, 2, 2), 31))
                by (bit_vector);
            lemma_cause_entry_fields(ce, c);
        }
    }

    /// Reads the TLB slot selected by the Index register into EntryHi and
    /// EntryLo.
    pub fn tlbr_emulate(&mut self)
        requires
            old(self).wf(),
        ensures
            *final(self) == (CPZero {
                entryhi: old(self).tlb@[old(self).index.spec_index() as int].entryhi,
                entrylo: old(self).tlb@[old(self).index.spec_index() as int].entrylo,
                ..*old(self)
            }),
    {
        let i = self.index.get_index();
        let entry = self.tlb[i as usize];
        self.entryhi = entry.entryhi;
        self.entrylo = entry.entrylo;
    }

    /// Writes EntryHi and EntryLo into the TLB slot selected by the Index
    /// register.
    pub fn tlbwi_emulate(&mut self)
        requires
            old(self).wf(),
        ensures
            final(self).wf(),
            *final(self) == (CPZero {
                tlb: final(self).tlb,
                ..*old(self)
            }),
            final(self).tlb@ == old(self).tlb@.update(
                old(self).index.spec_index() as int,
                TlbEntry { entryhi: old(self).entryhi, entrylo: old(self).entrylo },
            ),
    {
        let i = self.index.get_index();
        self.tlb[i as usize] = TlbEntry { entryhi: self.entryhi, entrylo: self.entrylo };
    }

    /// Writes EntryHi and EntryLo into the TLB slot selected by the Random
    /// register.
    pub fn tlbwr_emulate(&mut self)
        requires
            old(self).wf(),
        ensures
            final(self).wf(),
            *final(self) == (CPZero {
                tlb: final(self).tlb,
                ..*old(self)
            }),
            final(self).tlb@ == old(self).tlb@.update(
                old(self).random.spec_value() as int,
                TlbEntry { entryhi: old(self).entryhi, entrylo: old(self).entrylo },
            ),
    {
        let i = self.random.get_value();
        self.tlb[i as usize] = TlbEntry { entryhi: self.entryhi, entrylo: self.entrylo };
    }

    /// Probes the TLB for an entry matching EntryHi: on a hit the Index
    /// register selects the first matching slot and its P bit is cleared;
    /// on a miss the P bit is set.
    pub fn tlbp_emulate(&mut self)
        requires
            old(self).wf(),
        ensures
            *final(self) == (CPZero { index: final(self).index, ..*old(self) }),
            match spec_tlb_probe(old(self).tlb@, old(self).entryhi, 0) {
                Some(i) => final(self).index.bits == spec_set_bit(
                    spec_set_field(old(self).index.bits, 8, 6, i as u32),
                    31,
                    false,
                ),
                None => final(self).index.bits == spec_set_bit(old(self).index.bits, 31, true),
            },
    {
        let hi = self.entryhi;
        let mut i: usize = 0;
        while i < 64
            invariant
                self == old(self),
                0 <= i <= 64,
                spec_tlb_probe(self.tlb@, hi, 0) == spec_tlb_probe(self.tlb@, hi, i as int),
                hi == self.entryhi,
                self.wf(),
            decreases 64 - i,
        {
            let e = self.tlb[i];
            let vpn_match = e.entryhi & 0xffff_f000 == hi & 0xffff_f000;
            let asid_match = e.global() || e.entryhi & 0x0fc0 == hi & 0x0fc0;
            if vpn_match && asid_match {
                self.index.set_index(i as u32);
                self.index.clear_p();
                return ;
            }
            i = i + 1;
        }
        self.index.set_p();
    }

    /// Pops the KU/IE stack of the Status register on return from
    /// exception, restoring the previous mode.
    pub fn rfe_emulate(&mut self)
        ensures
            *final(self) == (CPZero { status: final(self).status, ..*old(self) }),
            final(self).status.bits == spec_status_pop(old(self).status.bits),
    {
        self.status.pop_mode_stack();
    }

    /// Whether coprocessor `coprocno` is enabled in the Status register.
    pub fn coprocessor_usable(&self, coprocno: u32) -> (r: bool)
        requires
            coprocno < 4,
        ensures
            r == spec_get_bit(self.status.bits, (28 + coprocno) as u32),
    {
        if coprocno == 0 {
            self.status.cu0()
        } else if coprocno == 1 {
            self.status.cu1()
        } else if coprocno == 2 {
            self.status.cu2()
        } else {
            self.status.cu3()
        }
    }

    /// Whether the processor is in kernel mode.
    pub fn kernel_mode(&self) -> (r: bool)
        ensures
            r == self.status.spec_kernel_mode(),
    {
        self.status.is_kernel_mode()
    }

    /// Whether interrupts are enabled.
    pub fn interrupts_enabled(&self) -> (r: bool)
        ensures
            r == self.status.spec_interrupts_enabled(),
    {
        self.status.are_interrupts_enabled()
    }

    /// Whether the bootstrap exception vectors are in use.
    pub fn boot_exception_vector_enabled(&self) -> (r: bool)
        ensures
            r == self.status.spec_bootstrap_mode(),
    {
        self.status.is_bootstrap_mode()
    }

    /// Reads the CP0 register in architectural slot `n`; unnamed slots read
    /// as zero.
    pub fn read_reg(&self, n: u32) -> (r: u32)
        requires
            n < 32,
        ensures
            r == self.spec_read_reg(n),
    {
        if n == 0 {
            self.index.bits
        } else if n == 1 {
            self.random.bits
        } else if n == 2 {
            self.entrylo
        } else if n == 4 {
            self.context.bits
        } else if n == 8 {
            self.badvaddr.address
        } else if n == 10 {
            self.entryhi
        } else if n == 12 {
            self.status.bits
        } else if n == 13 {
            self.cause.bits
        } else if n == 14 {
            self.epc.address
        } else if n == 15 {
            self.prid.bits
        } else {
            0
        }
    }

    /// Value of the CP0 register in architectural slot `n`.
    pub open spec fn spec_read_reg(self, n: u32) -> u32 {
        if n == 0 {
            self.index.bits
        } else if n == 1 {
            self.random.bits
        } else if n == 2 {
            self.entrylo
        } else if n == 4 {
            self.context.bits
        } else if n == 8 {
            self.badvaddr.address
        } else if n == 10 {
            self.entryhi
        } else if n == 12 {
            self.status.bits
        } else if n == 13 {
            self.cause.bits
        } else if n == 14 {
            self.epc.address
        } else if n == 15 {
            self.prid.bits
        } else {
            0
        }
    }

    /// The coprocessor state after writing `v` to architectural slot `n`;
    /// writes to unnamed slots are discarded.
    pub open spec fn spec_write_reg(self, n: u32, v: u32) -> CPZero {
        if n == 0 {
            CPZero { index: IndexRegister { bits: v }, ..self }
        } else if n == 1 {
            CPZero { random: RandomRegister { bits: v }, ..self }
        } else if n == 2 {
            CPZero { entrylo: v, ..self }
        } else if n == 4 {
            CPZero { context: ContextRegister { bits: v }, ..self }
        } else if n == 8 {
            CPZero { badvaddr: BadVaddrRegister { address: v }, ..self }
        } else if n == 10 {
            CPZero { entryhi: v, ..self }
        } else if n == 12 {
            CPZero { status: StatusRegister { bits: v }, ..self }
        } else if n == 13 {
            CPZero { cause: CauseRegister { bits: v }, ..self }
        } else if n == 14 {
            CPZero { epc: EpcRegister { address: v }, ..self }
        } else if n == 15 {
            CPZero { prid: PridRegister { bits: v }, ..self }
        } else {
            self
        }
    }

    /// Writes `v` to the CP0 register in architectural slot `n`; writes to
    /// unnamed slots are discarded.
    pub fn write_reg(&mut self, n: u32, v: u32)
        requires
            n < 32,
        ensures
            *final(self) == old(self).spec_write_reg(n, v),
    {
        if n == 0 {
            self.index = IndexRegister { bits: v };
        } else if n == 1 {
            self.random = RandomRegister { bits: v };
        } else if n == 2 {
            self.entrylo = v;
        } else if n == 4 {
            self.context = ContextRegister { bits: v };
        } else if n == 8 {
            self.badvaddr = BadVaddrRegister { address: v };
        } else if n == 10 {
            self.entryhi = v;
        } else if n == 12 {
            self.status = StatusRegister { bits: v };
        } else if n == 13 {
            self.cause = CauseRegister { bits: v };
        } else if n == 14 {
            self.epc = EpcRegister { address: v };
        } else if n == 15 {
            self.prid = PridRegister { bits: v };
        }
    }
}

/// The Status register value after a reset: BEV set, and KUc, IEc, TS and
/// SwC forced clear; every other bit keeps its old value.
pub open spec fn spec_reset_status(sb: u32) -> u32 {
    spec_set_bit(
        spec_set_bit(
            spec_set_bit(spec_set_bit(spec_set_bit(sb, 22, true), 1, false), 0, false),
            21,
            false,
        ),
        17,
        false,
    )
}

/// Resetting the Status register leaves the bits it does not name alone.
proof fn lemma_reset_status_preserves_other(sb: u32, j: u32)
    by (bit_vector)
    requires
        j < 32,
        j != 0,
        j != 1,
        j != 17,
        j != 21,
        j != 22,
    ensures
        spec_get_bit(spec_reset_status(sb), j) == spec_get_bit(sb, j),
{
}

/// After the reset writes, the Status register shows bootstrap vectors on,
/// kernel mode, interrupts disabled, and TS and SwC clear.
proof fn lemma_reset_status_bits(sb: u32)
    by (bit_vector)
    ensures
        spec_get_bit(
            spec_set_bit(
                spec_set_bit(
                    spec_set_bit(spec_set_bit(spec_set_bit(sb, 22, true), 1, false), 0, false),
                    21,
                    false,
                ),
                17,
                false,
            ),
            22,
        ),
        !spec_get_bit(
            spec_set_bit(
                spec_set_bit(
                    spec_set_bit(spec_set_bit(spec_set_bit(sb, 22, true), 1, false), 0, false),
                    21,
                    false,
                ),
                17,
                false,
            ),
            1,
        ),
        !spec_get_bit(
            spec_set_bit(
                spec_set_bit(
                    spec_set_bit(spec_set_bit(spec_set_bit(sb, 22, true), 1, false), 0, false),
                    21,
                    false,
                ),
                17,
                false,
            ),
            0,
        ),
        !spec_get_bit(
            spec_set_bit(
                spec_set_bit(
                    spec_set_bit(spec_set_bit(spec_set_bit(sb, 22, true), 1, false), 0, false),
                    21,
                    false,
                ),
                17,
                false,
            ),
            21,
        ),
        !spec_get_bit(
            spec_set_bit(
                spec_set_bit(
                    spec_set_bit(spec_set_bit(spec_set_bit(sb, 22, true), 1, false), 0, false),
                    21,
                    false,
                ),
                17,
                false,
            ),
            17,
        ),
{
}

/// Pushing the KU/IE stack clears the current mode bits: kernel mode with
/// interrupts disabled.
proof fn lemma_status_push_clears_current(sb: u32)
    by (bit_vector)
    ensures
        !spec_get_bit(spec_status_push(sb), 1),
        !spec_get_bit(spec_status_push(sb), 0),
{
}

/// The Cause value assembled on exception entry reads back its pieces: the
/// ExcCode field holds the code, and the BD bit is set exactly when it was
/// written.
proof fn lemma_cause_entry_fields(ce: u32, c: u32)
    by (bit_vector)
    requires
        c < 32,
        !spec_get_bit(ce, 31),
    ensures
        spec_get_bit(spec_set_bit(spec_set_field(ce, 2, 5, c), 31, true), 31),
        !spec_get_bit(spec_set_field(ce, 2, 5, c), 31),
        crate::bits::spec_get_field(spec_set_bit(spec_set_field(ce, 2, 5, c), 31, true), 2, 5)
            == c,
        crate::bits::spec_get_field(spec_set_field(ce, 2, 5, c), 2, 5) == c,
{
}

/// After an exception entry followed by `rfe`, the current and previous
/// KU/IE bits of the Status register are restored to what they were before
/// the entry.
pub proof fn lemma_rfe_restores_mode(bits: u32)
    by (bit_vector)
    ensures
        spec_get_bit(spec_status_pop(spec_status_push(bits)), 0) == spec_get_bit(bits, 0),
        spec_get_bit(spec_status_pop(spec_status_push(bits)), 1) == spec_get_bit(bits, 1),
        spec_get_bit(spec_status_pop(spec_status_push(bits)), 2) == spec_get_bit(bits, 2),
        spec_get_bit(spec_status_pop(spec_status_push(bits)), 3) == spec_get_bit(bits, 3),
{
}

} // verus!
