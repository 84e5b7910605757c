//! The per-opcode execute routines of the MIPS I integer instruction set.
//!
//! Every routine reads its operands from the instruction word's fields and
//! the register file, and its contract states the exact new value of every
//! piece of processor state it touches.

use vstd::prelude::*;
use crate::cpu::{exception_entry_post, Cpu, DelayState};
use crate::error::RmipsError;
use crate::exception::ExceptionCode;
use crate::instruction::{spec_jumptarget, spec_rd, spec_rs, spec_rt, spec_shamt, spec_simmed,
    Instruction};
use crate::memory::monitor::{recorded, Access, AccessKind, Monitor};
use crate::memory::bus::{store_byte_post, store_half_post, store_word_post};
use crate::Address;

verus! {

/// Everything but the register file is unchanged.
pub open spec fn unchanged_but_reg(pre: Cpu, post: Cpu) -> bool {
    &&& post.pc == pre.pc
    &&& post.instruction == pre.instruction
    &&& post.high == pre.high
    &&& post.low == pre.low
    &&& post.delay_state == pre.delay_state
    &&& post.delay_pc == pre.delay_pc
    &&& post.exception_pending == pre.exception_pending
    &&& post.cpzero == pre.cpzero
}

/// Everything but the multiply/divide result registers is unchanged.
pub open spec fn unchanged_but_hilo(pre: Cpu, post: Cpu) -> bool {
    &&& post.pc == pre.pc
    &&& post.instruction == pre.instruction
    &&& post.reg == pre.reg
    &&& post.delay_state == pre.delay_state
    &&& post.delay_pc == pre.delay_pc
    &&& post.exception_pending == pre.exception_pending
    &&& post.cpzero == pre.cpzero
}

/// Everything but the branch delay bookkeeping is unchanged.
pub open spec fn unchanged_but_delay(pre: Cpu, post: Cpu) -> bool {
    &&& post.pc == pre.pc
    &&& post.instruction == pre.instruction
    &&& post.reg == pre.reg
    &&& post.high == pre.high
    &&& post.low == pre.low
    &&& post.exception_pending == pre.exception_pending
    &&& post.cpzero == pre.cpzero
}

/// Everything but the register file and the branch delay bookkeeping is
/// unchanged.
pub open spec fn unchanged_but_reg_delay(pre: Cpu, post: Cpu) -> bool {
    &&& post.pc == pre.pc
    &&& post.instruction == pre.instruction
    &&& post.high == pre.high
    &&& post.low == pre.low
    &&& post.exception_pending == pre.exception_pending
    &&& post.cpzero == pre.cpzero
}

/// Signed order on two register values.
pub open spec fn lt_signed(a: u32, b: u32) -> bool {
    (a as i32) < (b as i32)
}

/// Whether the signed sum of two register values leaves the 32-bit
/// two's-complement range.
pub open spec fn add_overflows(a: u32, b: u32) -> bool {
    (a as i32) + (b as i32) > i32::MAX || (a as i32) + (b as i32) < i32::MIN
}

/// The signed sum of two register values, as a register value; meaningful
/// only when it does not overflow.
pub open spec fn add_result(a: u32, b: u32) -> u32 {
    (((a as i32) + (b as i32)) as i32) as u32
}

/// Whether the signed difference of two register values leaves the 32-bit
/// two's-complement range.
pub open spec fn sub_overflows(a: u32, b: u32) -> bool {
    (a as i32) - (b as i32) > i32::MAX || (a as i32) - (b as i32) < i32::MIN
}

/// The signed difference of two register values, as a register value;
/// meaningful only when it does not overflow.
pub open spec fn sub_result(a: u32, b: u32) -> u32 {
    (((a as i32) - (b as i32)) as i32) as u32
}

/// The 64-bit signed product of two register values.
pub open spec fn mult_value(a: u32, b: u32) -> i64 {
    (a as i32 as i64).wrapping_mul(b as i32 as i64)
}

/// The 64-bit unsigned product of two register values.
pub open spec fn multu_value(a: u32, b: u32) -> u64 {
    (a as u64).wrapping_mul(b as u64)
}

/// The quotient register value of a signed division; zero when the divisor
/// is zero or the quotient is unrepresentable.
pub open spec fn div_lo(a: u32, b: u32) -> u32 {
    match (a as i32).checked_div(b as i32) {
        Some(q) => q as u32,
        None => 0u32,
    }
}

/// The remainder register value of a signed division; zero when the divisor
/// is zero or the remainder is unrepresentable.
pub open spec fn div_hi(a: u32, b: u32) -> u32 {
    match (a as i32).checked_rem(b as i32) {
        Some(m) => m as u32,
        None => 0u32,
    }
}

/// The quotient of an unsigned division; zero when the divisor is zero.
pub open spec fn divu_lo(a: u32, b: u32) -> u32 {
    match a.checked_div(b) {
        Some(q) => q,
        None => 0u32,
    }
}

/// The remainder of an unsigned division; zero when the divisor is zero.
pub open spec fn divu_hi(a: u32, b: u32) -> u32 {
    match a.checked_rem(b) {
        Some(m) => m,
        None => 0u32,
    }
}

/// A byte loaded by `lb`, sign-extended to a register value.
pub open spec fn sign_extend_byte(b: u8) -> u32 {
    if b >= 0x80 {
        (b + 0xffff_ff00) as u32
    } else {
        b as u32
    }
}

/// A halfword loaded by `lh`, sign-extended to a register value.
pub open spec fn sign_extend_half(h: u16) -> u32 {
    if h >= 0x8000 {
        (h + 0xffff_0000) as u32
    } else {
        h as u32
    }
}

/// The target of a PC-relative branch: the address of the delay slot plus
/// the sign-extended immediate scaled to words, computed with wrapping.
pub open spec fn spec_branch_target(pc: u32, w: u32) -> u32 {
    pc.wrapping_add(4).wrapping_add(spec_simmed(w) << 2)
}

/// The target of a J-format jump: the jump target field scaled to words,
/// placed inside the 256 MiB region of the delay slot.
pub open spec fn spec_jump_target(pc: u32, w: u32) -> u32 {
    (pc.wrapping_add(4) & 0xf000_0000) | (spec_jumptarget(w) << 2)
}

/// The value that a link instruction stores: the address after the delay
/// slot.
pub open spec fn spec_link(pc: u32) -> u32 {
    pc.wrapping_add(8)
}

/// The virtual address of a load or store: base register plus sign-extended
/// offset, computed with wrapping.
pub open spec fn spec_eaddr(base: u32, w: u32) -> u32 {
    base.wrapping_add(spec_simmed(w))
}


/// Relation between the processor before and after a coprocessor-unusable
/// exception for coprocessor `coprocno`: the usual exception entry, with the
/// offending coprocessor recorded in Cause.CE.
pub open spec fn coprocessor_unusable_post(pre: Cpu, post: Cpu, coprocno: u32) -> bool {
    &&& post.exception_pending
    &&& post.pc == crate::cpu::spec_exception_vector(
        pre.cpzero.status.spec_bootstrap_mode(),
        ExceptionCode::CoprocessorUnusable,
        pre.cpzero.tlb_miss_user,
    )
    &&& post.cpzero.status.bits == crate::registers::status::spec_status_push(
        pre.cpzero.status.bits,
    )
    &&& post.cpzero.epc.address == if pre.delay_state == DelayState::Delayslot {
        pre.pc.wrapping_sub(4)
    } else {
        pre.pc
    }
    &&& post.cpzero.cause.bits == crate::bits::spec_set_field(
        crate::cpzero::spec_cause_entry(
            ExceptionCode::CoprocessorUnusable,
            pre.delay_state == DelayState::Delayslot,
        ),
        28,
        2,
        coprocno,
    )
    &&& post.reg == pre.reg
    &&& post.high == pre.high
    &&& post.low == pre.low
    &&& post.delay_state == pre.delay_state
    &&& post.delay_pc == pre.delay_pc
    &&& post.instruction == pre.instruction
}

impl Cpu {
    /// Shift left logical.
    pub fn sll_emulate(&mut self, instr: Instruction)
        requires
            old(self).wf(),
        ensures
            final(self).wf(),
            final(self).reg@ == old(self).reg@.update(
                spec_rd(instr.0) as int,
                old(self).gpr(spec_rt(instr.0)) << spec_shamt(instr.0),
            ),
            unchanged_but_reg(*old(self), *final(self)),
    {
        let v = self.reg[instr.rt()];
        self.reg[instr.rd()] = v << instr.shamt();
    }

    /// Shift right logical (zero-extending).
    pub fn srl_emulate(&mut self, instr: Instruction)
        requires
            old(self).wf(),
        ensures
            final(self).wf(),
            final(self).reg@ == old(self).reg@.update(
                spec_rd(instr.0) as int,
                old(self).gpr(spec_rt(instr.0)) >> spec_shamt(instr.0),
            ),
            unchanged_but_reg(*old(self), *final(self)),
    {
        let v = self.reg[instr.rt()];
        self.reg[instr.rd()] = srl(v, instr.shamt());
    }

    /// Shift right logical variable.
    pub fn srlv_emulate(&mut self, instr: Instruction)
        requires
            old(self).wf(),
        ensures
            final(self).wf(),
            final(self).reg@ == old(self).reg@.update(
                spec_rd(instr.0) as int,
                old(self).gpr(spec_rt(instr.0)) >> (old(self).gpr(spec_rs(instr.0)) & 0x1f),
            ),
            unchanged_but_reg(*old(self), *final(self)),
    {
        let v = self.reg[instr.rt()];
        let sh = self.reg[instr.rs()] & 0x1f;
        proof {
            lemma_mask5_bound(old(self).gpr(spec_rs(instr.0)));
        }
        self.reg[instr.rd()] = srl(v, sh);
    }

    /// Shift right arithmetic (sign-extending).
    pub fn sra_emulate(&mut self, instr: Instruction)
        requires
            old(self).wf(),
        ensures
            final(self).wf(),
            final(self).reg@ == old(self).reg@.update(
                spec_rd(instr.0) as int,
                ((old(self).gpr(spec_rt(instr.0)) as i32) >> spec_shamt(instr.0)) as u32,
            ),
            unchanged_but_reg(*old(self), *final(self)),
    {
        let v = self.reg[instr.rt()];
        self.reg[instr.rd()] = sra(v, instr.shamt());
    }

    /// Shift left logical variable.
    pub fn sllv_emulate(&mut self, instr: Instruction)
        requires
            old(self).wf(),
        ensures
            final(self).wf(),
            final(self).reg@ == old(self).reg@.update(
                spec_rd(instr.0) as int,
                old(self).gpr(spec_rt(instr.0)) << (old(self).gpr(spec_rs(instr.0)) & 0x1f),
            ),
            unchanged_but_reg(*old(self), *final(self)),
    {
        let v = self.reg[instr.rt()];
        let sh = self.reg[instr.rs()] & 0x1f;
        proof {
            lemma_mask5_bound(old(self).gpr(spec_rs(instr.0)));
        }
        self.reg[instr.rd()] = v << sh;
    }

    /// Shift right arithmetic variable.
    pub fn srav_emulate(&mut self, instr: Instruction)
        requires
            old(self).wf(),
        ensures
            final(self).wf(),
            final(self).reg@ == old(self).reg@.update(
                spec_rd(instr.0) as int,
                ((old(self).gpr(spec_rt(instr.0)) as i32) >> (old(self).gpr(spec_rs(instr.0))
                    & 0x1f)) as u32,
            ),
            unchanged_but_reg(*old(self), *final(self)),
    {
        let v = self.reg[instr.rt()];
        let sh = self.reg[instr.rs()] & 0x1f;
        proof {
            lemma_mask5_bound(old(self).gpr(spec_rs(instr.0)));
        }
        self.reg[instr.rd()] = sra(v, sh);
    }

    /// Jump register.
    pub fn jr_emulate(&mut self, instr: Instruction)
        requires
            old(self).wf(),
        ensures
            final(self).wf(),
            final(self).delay_state == DelayState::Delaying,
            final(self).delay_pc == old(self).gpr(spec_rs(instr.0)),
            unchanged_but_delay(*old(self), *final(self)),
    {
        let target = self.reg[instr.rs()];
        self.control_transfer(target);
    }

    /// Jump and link register: saves the address after the delay slot in
    /// `rd`, then transfers to the address in `rs`.
    pub fn jalr_emulate(&mut self, instr: Instruction)
        requires
            old(self).wf(),
        ensures
            final(self).wf(),
            final(self).delay_state == DelayState::Delaying,
            final(self).delay_pc == old(self).gpr(spec_rs(instr.0)),
            final(self).reg@ == old(self).reg@.update(
                spec_rd(instr.0) as int,
                spec_link(old(self).pc),
            ),
            unchanged_but_reg_delay(*old(self), *final(self)),
    {
        let target = self.reg[instr.rs()];
        self.control_transfer(target);
        self.reg[instr.rd()] = self.pc.wrapping_add(8);
    }

    /// System call: enters the `Syscall` exception.
    pub fn syscall_emulate(&mut self) -> (r: Result<(), RmipsError>)
        requires
            old(self).wf(),
        ensures
            final(self).wf(),
            r is Ok,
            exception_entry_post(*old(self), *final(self), ExceptionCode::Syscall),
    {
        self.exception(ExceptionCode::Syscall)
    }

    /// Breakpoint: halts the machine.
    pub fn break_emulate(&mut self) -> (r: Result<(), RmipsError>)
        requires
            old(self).wf(),
        ensures
            final(self).wf(),
            r == Err::<(), RmipsError>(RmipsError::Halt),
            *final(self) == *old(self),
    {
        self.exception(ExceptionCode::Break)
    }

    /// Move from HI register.
    pub fn mfhi_emulate(&mut self, instr: Instruction)
        requires
            old(self).wf(),
        ensures
            final(self).wf(),
            final(self).reg@ == old(self).reg@.update(spec_rd(instr.0) as int, old(self).high),
            unchanged_but_reg(*old(self), *final(self)),
    {
        let v = self.high;
        self.reg[instr.rd()] = v;
    }

    /// Move to HI register.
    pub fn mthi_emulate(&mut self, instr: Instruction)
        requires
            old(self).wf(),
        ensures
            final(self).wf(),
            final(self).high == old(self).gpr(spec_rs(instr.0)),
            final(self).low == old(self).low,
            unchanged_but_hilo(*old(self), *final(self)),
    {
        self.high = self.reg[instr.rs()];
    }

    /// Move from LO register.
    pub fn mflo_emulate(&mut self, instr: Instruction)
        requires
            old(self).wf(),
        ensures
            final(self).wf(),
            final(self).reg@ == old(self).reg@.update(spec_rd(instr.0) as int, old(self).low),
            unchanged_but_reg(*old(self), *final(self)),
    {
        let v = self.low;
        self.reg[instr.rd()] = v;
    }

    /// Move to LO register.
    pub fn mtlo_emulate(&mut self, instr: Instruction)
        requires
            old(self).wf(),
        ensures
            final(self).wf(),
            final(self).low == old(self).gpr(spec_rs(instr.0)),
            final(self).high == old(self).high,
            unchanged_but_hilo(*old(self), *final(self)),
    {
        self.low = self.reg[instr.rs()];
    }

    /// Multiply word: the signed 64-bit product lands in (HI, LO).
    pub fn mult_emulate(&mut self, instr: Instruction)
        requires
            old(self).wf(),
        ensures
            final(self).wf(),
            final(self).low == (mult_value(
                old(self).gpr(spec_rs(instr.0)),
                old(self).gpr(spec_rt(instr.0)),
            ) & 0xffff_ffff) as u32,
            final(self).high == ((mult_value(
                old(self).gpr(spec_rs(instr.0)),
                old(self).gpr(spec_rt(instr.0)),
            ) >> 32) & 0xffff_ffff) as u32,
            unchanged_but_hilo(*old(self), *final(self)),
    {
        let a = self.reg[instr.rs()] as i32 as i64;
        let b = self.reg[instr.rt()] as i32 as i64;
        let t = a.wrapping_mul(b);
        self.low = (t & 0xffff_ffff) as u32;
        self.high = ((t >> 32) & 0xffff_ffff) as u32;
    }

    /// Multiply unsigned: the unsigned 64-bit product lands in (HI, LO).
    pub fn multu_emulate(&mut self, instr: Instruction)
        requires
            old(self).wf(),
        ensures
            final(self).wf(),
            final(self).low == (multu_value(
                old(self).gpr(spec_rs(instr.0)),
                old(self).gpr(spec_rt(instr.0)),
            ) % 0x1_0000_0000) as u32,
            final(self).high == (multu_value(
                old(self).gpr(spec_rs(instr.0)),
                old(self).gpr(spec_rt(instr.0)),
            ) / 0x1_0000_0000) as u32,
            unchanged_but_hilo(*old(self), *final(self)),
    {
        let a = self.reg[instr.rs()] as u64;
        let b = self.reg[instr.rt()] as u64;
        let t = a.wrapping_mul(b);
        self.low = (t % 0x1_0000_0000) as u32;
        self.high = (t / 0x1_0000_0000) as u32;
    }

    /// Divide word: signed quotient in LO, signed remainder in HI. Division
    /// by zero stores zero in both and raises no exception.
    pub fn div_emulate(&mut self, instr: Instruction)
        requires
            old(self).wf(),
        ensures
            final(self).wf(),
            final(self).low == div_lo(
                old(self).gpr(spec_rs(instr.0)),
                old(self).gpr(spec_rt(instr.0)),
            ),
            final(self).high == div_hi(
                old(self).gpr(spec_rs(instr.0)),
                old(self).gpr(spec_rt(instr.0)),
            ),
            unchanged_but_hilo(*old(self), *final(self)),
    {
        let a = self.reg[instr.rs()] as i32;
        let b = self.reg[instr.rt()] as i32;
        self.low = match a.checked_div(b) {
            Some(q) => q as u32,
            None => 0,
        };
        self.high = match a.checked_rem(b) {
            Some(m) => m as u32,
            None => 0,
        };
    }

    /// Divide unsigned word: quotient in LO, remainder in HI. Division by
    /// zero stores zero in both and raises no exception.
    pub fn divu_emulate(&mut self, instr: Instruction)
        requires
            old(self).wf(),
        ensures
            final(self).wf(),
            final(self).low == divu_lo(
                old(self).gpr(spec_rs(instr.0)),
                old(self).gpr(spec_rt(instr.0)),
            ),
            final(self).high == divu_hi(
                old(self).gpr(spec_rs(instr.0)),
                old(self).gpr(spec_rt(instr.0)),
            ),
            unchanged_but_hilo(*old(self), *final(self)),
    {
        let a = self.reg[instr.rs()];
        let b = self.reg[instr.rt()];
        self.low = match a.checked_div(b) {
            Some(q) => q,
            None => 0,
        };
        self.high = match a.checked_rem(b) {
            Some(m) => m,
            None => 0,
        };
    }

    /// Addition with overflow trap.
    pub fn add_emulate(&mut self, instr: Instruction) -> (r: Result<(), RmipsError>)
        requires
            old(self).wf(),
        ensures
            final(self).wf(),
            r is Ok,
            add_overflows(old(self).gpr(spec_rs(instr.0)), old(self).gpr(spec_rt(instr.0)))
                ==> exception_entry_post(*old(self), *final(self), ExceptionCode::Overflow),
            !add_overflows(old(self).gpr(spec_rs(instr.0)), old(self).gpr(spec_rt(instr.0))) ==> {
                &&& final(self).reg@ == old(self).reg@.update(
                    spec_rd(instr.0) as int,
                    add_result(old(self).gpr(spec_rs(instr.0)), old(self).gpr(spec_rt(instr.0))),
                )
                &&& unchanged_but_reg(*old(self), *final(self))
            },
    {
        let a = self.reg[instr.rs()] as i32;
        let b = self.reg[instr.rt()] as i32;
        match a.checked_add(b) {
            Some(s) => {
                self.reg[instr.rd()] = s as u32;
                Ok(())
            },
            None => self.exception(ExceptionCode::Overflow),
        }
    }

    /// Add unsigned: wraps silently.
    pub fn addu_emulate(&mut self, instr: Instruction)
        requires
            old(self).wf(),
        ensures
            final(self).wf(),
            final(self).reg@ == old(self).reg@.update(
                spec_rd(instr.0) as int,
                old(self).gpr(spec_rs(instr.0)).wrapping_add(old(self).gpr(spec_rt(instr.0))),
            ),
            unchanged_but_reg(*old(self), *final(self)),
    {
        let a = self.reg[instr.rs()];
        let b = self.reg[instr.rt()];
        self.reg[instr.rd()] = a.wrapping_add(b);
    }

    /// Subtraction with overflow trap.
    pub fn sub_emulate(&mut self, instr: Instruction) -> (r: Result<(), RmipsError>)
        requires
            old(self).wf(),
        ensures
            final(self).wf(),
            r is Ok,
            sub_overflows(old(self).gpr(spec_rs(instr.0)), old(self).gpr(spec_rt(instr.0)))
                ==> exception_entry_post(*old(self), *final(self), ExceptionCode::Overflow),
            !sub_overflows(old(self).gpr(spec_rs(instr.0)), old(self).gpr(spec_rt(instr.0))) ==> {
                &&& final(self).reg@ == old(self).reg@.update(
                    spec_rd(instr.0) as int,
                    sub_result(old(self).gpr(spec_rs(instr.0)), old(self).gpr(spec_rt(instr.0))),
                )
                &&& unchanged_but_reg(*old(self), *final(self))
            },
    {
        let a = self.reg[instr.rs()] as i32;
        let b = self.reg[instr.rt()] as i32;
        match a.checked_sub(b) {
            Some(s) => {
                self.reg[instr.rd()] = s as u32;
                Ok(())
            },
            None => self.exception(ExceptionCode::Overflow),
        }
    }

    /// Subtract unsigned: wraps silently.
    pub fn subu_emulate(&mut self, instr: Instruction)
        requires
            old(self).wf(),
        ensures
            final(self).wf(),
            final(self).reg@ == old(self).reg@.update(
                spec_rd(instr.0) as int,
                old(self).gpr(spec_rs(instr.0)).wrapping_sub(old(self).gpr(spec_rt(instr.0))),
            ),
            unchanged_but_reg(*old(self), *final(self)),
    {
        let a = self.reg[instr.rs()];
        let b = self.reg[instr.rt()];
        self.reg[instr.rd()] = a.wrapping_sub(b);
    }

    /// Bitwise AND.
    pub fn and_emulate(&mut self, instr: Instruction)
        requires
            old(self).wf(),
        ensures
            final(self).wf(),
            final(self).reg@ == old(self).reg@.update(
                spec_rd(instr.0) as int,
                old(self).gpr(spec_rs(instr.0)) & old(self).gpr(spec_rt(instr.0)),
            ),
            unchanged_but_reg(*old(self), *final(self)),
    {
        let a = self.reg[instr.rs()];
        let b = self.reg[instr.rt()];
        self.reg[instr.rd()] = a & b;
    }

    /// Bitwise OR.
    pub fn or_emulate(&mut self, instr: Instruction)
        requires
            old(self).wf(),
        ensures
            final(self).wf(),
            final(self).reg@ == old(self).reg@.update(
                spec_rd(instr.0) as int,
                old(self).gpr(spec_rs(instr.0)) | old(self).gpr(spec_rt(instr.0)),
            ),
            unchanged_but_reg(*old(self), *final(self)),
    {
        let a = self.reg[instr.rs()];
        let b = self.reg[instr.rt()];
        self.reg[instr.rd()] = a | b;
    }

    /// Bitwise XOR.
    pub fn xor_emulate(&mut self, instr: Instruction)
        requires
            old(self).wf(),
        ensures
            final(self).wf(),
            final(self).reg@ == old(self).reg@.update(
                spec_rd(instr.0) as int,
                old(self).gpr(spec_rs(instr.0)) ^ old(self).gpr(spec_rt(instr.0)),
            ),
            unchanged_but_reg(*old(self), *final(self)),
    {
        let a = self.reg[instr.rs()];
        let b = self.reg[instr.rt()];
        self.reg[instr.rd()] = a ^ b;
    }

    /// Bitwise NOR.
    pub fn nor_emulate(&mut self, instr: Instruction)
        requires
            old(self).wf(),
        ensures
            final(self).wf(),
            final(self).reg@ == old(self).reg@.update(
                spec_rd(instr.0) as int,
                !(old(self).gpr(spec_rs(instr.0)) | old(self).gpr(spec_rt(instr.0))),
            ),
            unchanged_but_reg(*old(self), *final(self)),
    {
        let a = self.reg[instr.rs()];
        let b = self.reg[instr.rt()];
        self.reg[instr.rd()] = !(a | b);
    }

    /// Set on less than, signed.
    pub fn slt_emulate(&mut self, instr: Instruction)
        requires
            old(self).wf(),
        ensures
            final(self).wf(),
            final(self).reg@ == old(self).reg@.update(
                spec_rd(instr.0) as int,
                if lt_signed(old(self).gpr(spec_rs(instr.0)), old(self).gpr(spec_rt(instr.0))) {
                    1u32
                } else {
                    0u32
                },
            ),
            unchanged_but_reg(*old(self), *final(self)),
    {
        let a = self.reg[instr.rs()] as i32;
        let b = self.reg[instr.rt()] as i32;
        if a < b {
            self.reg[instr.rd()] = 1;
        } else {
            self.reg[instr.rd()] = 0;
        }
    }

    /// Set on less than immediate, signed.
    pub fn slti_emulate(&mut self, instr: Instruction)
        requires
            old(self).wf(),
        ensures
            final(self).wf(),
            final(self).reg@ == old(self).reg@.update(
                spec_rt(instr.0) as int,
                if lt_signed(old(self).gpr(spec_rs(instr.0)), spec_simmed(instr.0)) {
                    1u32
                } else {
                    0u32
                },
            ),
            unchanged_but_reg(*old(self), *final(self)),
    {
        let a = self.reg[instr.rs()] as i32;
        let b = instr.simmed() as i32;
        if a < b {
            self.reg[instr.rt()] = 1;
        } else {
            self.reg[instr.rt()] = 0;
        }
    }

    /// Set on less than immediate, comparing unsigned against the
    /// sign-extended immediate.
    pub fn sltiu_emulate(&mut self, instr: Instruction)
        requires
            old(self).wf(),
        ensures
            final(self).wf(),
            final(self).reg@ == old(self).reg@.update(
                spec_rt(instr.0) as int,
                if old(self).gpr(spec_rs(instr.0)) < spec_simmed(instr.0) {
                    1u32
                } else {
                    0u32
                },
            ),
            unchanged_but_reg(*old(self), *final(self)),
    {
        let a = self.reg[instr.rs()];
        let b = instr.simmed();
        if a < b {
            self.reg[instr.rt()] = 1;
        } else {
            self.reg[instr.rt()] = 0;
        }
    }

    /// Set on less than, unsigned.
    pub fn sltu_emulate(&mut self, instr: Instruction)
        requires
            old(self).wf(),
        ensures
            final(self).wf(),
            final(self).reg@ == old(self).reg@.update(
                spec_rd(instr.0) as int,
                if old(self).gpr(spec_rs(instr.0)) < old(self).gpr(spec_rt(instr.0)) {
                    1u32
                } else {
                    0u32
                },
            ),
            unchanged_but_reg(*old(self), *final(self)),
    {
        let a = self.reg[instr.rs()];
        let b = self.reg[instr.rt()];
        if a < b {
            self.reg[instr.rd()] = 1;
        } else {
            self.reg[instr.rd()] = 0;
        }
    }

    /// Branch on less than zero.
    pub fn bltz_emulate(&mut self, instr: Instruction)
        requires
            old(self).wf(),
        ensures
            final(self).wf(),
            lt_signed(old(self).gpr(spec_rs(instr.0)), 0) ==> final(self).delay_state
                == DelayState::Delaying && final(self).delay_pc == spec_branch_target(
                old(self).pc,
                instr.0,
            ),
            !lt_signed(old(self).gpr(spec_rs(instr.0)), 0) ==> *final(self) == *old(self),
            unchanged_but_delay(*old(self), *final(self)),
    {
        if (self.reg[instr.rs()] as i32) < 0 {
            self.branch(instr);
        }
    }

    /// Branch on greater than or equal to zero.
    pub fn bgez_emulate(&mut self, instr: Instruction)
        requires
            old(self).wf(),
        ensures
            final(self).wf(),
            !lt_signed(old(self).gpr(spec_rs(instr.0)), 0) ==> final(self).delay_state
                == DelayState::Delaying && final(self).delay_pc == spec_branch_target(
                old(self).pc,
                instr.0,
            ),
            lt_signed(old(self).gpr(spec_rs(instr.0)), 0) ==> *final(self) == *old(self),
            unchanged_but_delay(*old(self), *final(self)),
    {
        if 0 <= (self.reg[instr.rs()] as i32) {
            self.branch(instr);
        }
    }

    /// Branch on less than zero and link: the link register always receives
    /// the address after the delay slot, before the condition is evaluated.
    pub fn bltzal_emulate(&mut self, instr: Instruction)
        requires
            old(self).wf(),
        ensures
            final(self).wf(),
            final(self).reg@ == old(self).reg@.update(31, spec_link(old(self).pc)),
            ({
                let linked = old(self).reg@.update(31, spec_link(old(self).pc));
                &&& lt_signed(linked[spec_rs(instr.0) as int], 0) ==> final(self).delay_state
                    == DelayState::Delaying && final(self).delay_pc == spec_branch_target(
                    old(self).pc,
                    instr.0,
                )
                &&& !lt_signed(linked[spec_rs(instr.0) as int], 0) ==> final(self).delay_state
                    == old(self).delay_state && final(self).delay_pc == old(self).delay_pc
            }),
            unchanged_but_reg_delay(*old(self), *final(self)),
    {
        self.reg[crate::constants::REG_RA] = self.pc.wrapping_add(8);

        if (self.reg[instr.rs()] as i32) < 0 {
            self.branch(instr);
        }
    }

    /// Branch on greater than or equal to zero and link: the link register
    /// always receives the address after the delay slot.
    pub fn bgezal_emulate(&mut self, instr: Instruction)
        requires
            old(self).wf(),
        ensures
            final(self).wf(),
            final(self).reg@ == old(self).reg@.update(31, spec_link(old(self).pc)),
            ({
                let linked = old(self).reg@.update(31, spec_link(old(self).pc));
                &&& !lt_signed(linked[spec_rs(instr.0) as int], 0) ==> final(self).delay_state
                    == DelayState::Delaying && final(self).delay_pc == spec_branch_target(
                    old(self).pc,
                    instr.0,
                )
                &&& lt_signed(linked[spec_rs(instr.0) as int], 0) ==> final(self).delay_state
                    == old(self).delay_state && final(self).delay_pc == old(self).delay_pc
            }),
            unchanged_but_reg_delay(*old(self), *final(self)),
    {
        self.reg[crate::constants::REG_RA] = self.pc.wrapping_add(8);

        if 0 <= (self.reg[instr.rs()] as i32) {
            self.branch(instr);
        }
    }

    /// Branch on equal.
    pub fn beq_emulate(&mut self, instr: Instruction)
        requires
            old(self).wf(),
        ensures
            final(self).wf(),
            old(self).gpr(spec_rs(instr.0)) == old(self).gpr(spec_rt(instr.0)) ==> final(self).delay_state == DelayState::Delaying && final(self).delay_pc == spec_branch_target(
                old(self).pc,
                instr.0,
            ),
            old(self).gpr(spec_rs(instr.0)) != old(self).gpr(spec_rt(instr.0)) ==> *final(self)
                == *old(self),
            unchanged_but_delay(*old(self), *final(self)),
    {
        if self.reg[instr.rs()] == self.reg[instr.rt()] {
            self.branch(instr);
        }
    }

    /// Branch on not equal.
    pub fn bne_emulate(&mut self, instr: Instruction)
        requires
            old(self).wf(),
        ensures
            final(self).wf(),
            old(self).gpr(spec_rs(instr.0)) != old(self).gpr(spec_rt(instr.0)) ==> final(self).delay_state == DelayState::Delaying && final(self).delay_pc == spec_branch_target(
                old(self).pc,
                instr.0,
            ),
            old(self).gpr(spec_rs(instr.0)) == old(self).gpr(spec_rt(instr.0)) ==> *final(self)
                == *old(self),
            unchanged_but_delay(*old(self), *final(self)),
    {
        if self.reg[instr.rs()] != self.reg[instr.rt()] {
            self.branch(instr);
        }
    }

    /// Branch on less than or equal to zero.
    pub fn blez_emulate(&mut self, instr: Instruction)
        requires
            old(self).wf(),
        ensures
            final(self).wf(),
            (old(self).gpr(spec_rs(instr.0)) == 0 || old(self).gpr(spec_rs(instr.0)) & 0x8000_0000
                != 0) ==> final(self).delay_state == DelayState::Delaying && final(self).delay_pc
                == spec_branch_target(old(self).pc, instr.0),
            !(old(self).gpr(spec_rs(instr.0)) == 0 || old(self).gpr(spec_rs(instr.0)) & 0x8000_0000
                != 0) ==> *final(self) == *old(self),
            unchanged_but_delay(*old(self), *final(self)),
    {
        // The sign bit is set, or the value is zero.
        if self.reg[instr.rs()] == 0 || (self.reg[instr.rs()] & 0x8000_0000) != 0 {
            self.branch(instr);
        }
    }

    /// Branch on greater than zero.
    pub fn bgtz_emulate(&mut self, instr: Instruction)
        requires
            old(self).wf(),
        ensures
            final(self).wf(),
            (old(self).gpr(spec_rs(instr.0)) != 0 && old(self).gpr(spec_rs(instr.0)) & 0x8000_0000
                == 0) ==> final(self).delay_state == DelayState::Delaying && final(self).delay_pc
                == spec_branch_target(old(self).pc, instr.0),
            !(old(self).gpr(spec_rs(instr.0)) != 0 && old(self).gpr(spec_rs(instr.0)) & 0x8000_0000
                == 0) ==> *final(self) == *old(self),
            unchanged_but_delay(*old(self), *final(self)),
    {
        // The sign bit is clear and the value is not zero.
        if self.reg[instr.rs()] != 0 && (self.reg[instr.rs()] & 0x8000_0000) == 0 {
            self.branch(instr);
        }
    }

    /// Add immediate with overflow trap.
    pub fn addi_emulate(&mut self, instr: Instruction) -> (r: Result<(), RmipsError>)
        requires
            old(self).wf(),
        ensures
            final(self).wf(),
            r is Ok,
            add_overflows(old(self).gpr(spec_rs(instr.0)), spec_simmed(instr.0))
                ==> exception_entry_post(*old(self), *final(self), ExceptionCode::Overflow),
            !add_overflows(old(self).gpr(spec_rs(instr.0)), spec_simmed(instr.0)) ==> {
                &&& final(self).reg@ == old(self).reg@.update(
                    spec_rt(instr.0) as int,
                    add_result(old(self).gpr(spec_rs(instr.0)), spec_simmed(instr.0)),
                )
                &&& unchanged_but_reg(*old(self), *final(self))
            },
    {
        let a = self.reg[instr.rs()] as i32;
        let b = instr.simmed() as i32;
        match a.checked_add(b) {
            Some(s) => {
                self.reg[instr.rt()] = s as u32;
                Ok(())
            },
            None => self.exception(ExceptionCode::Overflow),
        }
    }

    /// Add immediate unsigned: wraps silently.
    pub fn addiu_emulate(&mut self, instr: Instruction)
        requires
            old(self).wf(),
        ensures
            final(self).wf(),
            final(self).reg@ == old(self).reg@.update(
                spec_rt(instr.0) as int,
                old(self).gpr(spec_rs(instr.0)).wrapping_add(spec_simmed(instr.0)),
            ),
            unchanged_but_reg(*old(self), *final(self)),
    {
        let a = self.reg[instr.rs()];
        let b = instr.simmed();
        self.reg[instr.rt()] = a.wrapping_add(b);
    }

    /// Bitwise AND with the zero-extended immediate.
    pub fn andi_emulate(&mut self, instr: Instruction)
        requires
            old(self).wf(),
        ensures
            final(self).wf(),
            final(self).reg@ == old(self).reg@.update(
                spec_rt(instr.0) as int,
                old(self).gpr(spec_rs(instr.0)) & crate::instruction::spec_immed(instr.0),
            ),
            unchanged_but_reg(*old(self), *final(self)),
    {
        let a = self.reg[instr.rs()];
        self.reg[instr.rt()] = a & instr.immed();
    }

    /// Bitwise OR with the zero-extended immediate.
    pub fn ori_emulate(&mut self, instr: Instruction)
        requires
            old(self).wf(),
        ensures
            final(self).wf(),
            final(self).reg@ == old(self).reg@.update(
                spec_rt(instr.0) as int,
                old(self).gpr(spec_rs(instr.0)) | crate::instruction::spec_immed(instr.0),
            ),
            unchanged_but_reg(*old(self), *final(self)),
    {
        let a = self.reg[instr.rs()];
        self.reg[instr.rt()] = a | instr.immed();
    }

    /// Bitwise XOR with the zero-extended immediate.
    pub fn xori_emulate(&mut self, instr: Instruction)
        requires
            old(self).wf(),
        ensures
            final(self).wf(),
            final(self).reg@ == old(self).reg@.update(
                spec_rt(instr.0) as int,
                old(self).gpr(spec_rs(instr.0)) ^ crate::instruction::spec_immed(instr.0),
            ),
            unchanged_but_reg(*old(self), *final(self)),
    {
        let a = self.reg[instr.rs()];
        self.reg[instr.rt()] = a ^ instr.immed();
    }

    /// Load upper immediate: the immediate fills the high halfword.
    pub fn lui_emulate(&mut self, instr: Instruction)
        requires
            old(self).wf(),
        ensures
            final(self).wf(),
            final(self).reg@ == old(self).reg@.update(
                spec_rt(instr.0) as int,
                crate::instruction::spec_immed(instr.0) << 16,
            ),
            unchanged_but_reg(*old(self), *final(self)),
    {
        let v = instr.immed();
        self.reg[instr.rt()] = v << 16;
    }

    /// Jump.
    pub fn j_emulate(&mut self, instr: Instruction)
        requires
            old(self).wf(),
        ensures
            final(self).wf(),
            final(self).delay_state == DelayState::Delaying,
            final(self).delay_pc == spec_jump_target(old(self).pc, instr.0),
            unchanged_but_delay(*old(self), *final(self)),
    {
        self.jump(instr);
    }

    /// Jump and link: the return address register receives the address
    /// after the delay slot.
    pub fn jal_emulate(&mut self, instr: Instruction)
        requires
            old(self).wf(),
        ensures
            final(self).wf(),
            final(self).delay_state == DelayState::Delaying,
            final(self).delay_pc == spec_jump_target(old(self).pc, instr.0),
            final(self).reg@ == old(self).reg@.update(31, spec_link(old(self).pc)),
            unchanged_but_reg_delay(*old(self), *final(self)),
    {
        self.jump(instr);

        // The address of the instruction after the delay slot goes into the
        // return address register.
        self.reg[crate::constants::REG_RA] = self.pc.wrapping_add(8);
    }

    /// Move from the system control coprocessor.
    pub fn mfc0_emulate(&mut self, instr: Instruction)
        requires
            old(self).wf(),
        ensures
            final(self).wf(),
            final(self).reg@ == old(self).reg@.update(
                spec_rt(instr.0) as int,
                old(self).cpzero.spec_read_reg(spec_rd(instr.0) as u32),
            ),
            unchanged_but_reg(*old(self), *final(self)),
    {
        let v = self.cpzero.read_reg(instr.rd() as u32);
        self.reg[instr.rt()] = v;
    }

    /// Move to the system control coprocessor.
    pub fn mtc0_emulate(&mut self, instr: Instruction)
        requires
            old(self).wf(),
        ensures
            final(self).wf(),
            final(self).cpzero == old(self).cpzero.spec_write_reg(
                spec_rd(instr.0) as u32,
                old(self).gpr(spec_rt(instr.0)),
            ),
            final(self).reg == old(self).reg,
            final(self).pc == old(self).pc,
            final(self).instruction == old(self).instruction,
            final(self).high == old(self).high,
            final(self).low == old(self).low,
            final(self).delay_state == old(self).delay_state,
            final(self).delay_pc == old(self).delay_pc,
            final(self).exception_pending == old(self).exception_pending,
    {
        let v = self.reg[instr.rt()];
        self.cpzero.write_reg(instr.rd() as u32, v);
    }

    /// Reserved instruction: enters the `ReservedInstruction` exception.
    pub fn ri_emulate(&mut self) -> (r: Result<(), RmipsError>)
        requires
            old(self).wf(),
        ensures
            final(self).wf(),
            r is Ok,
            exception_entry_post(*old(self), *final(self), ExceptionCode::ReservedInstruction),
    {
        self.exception(ExceptionCode::ReservedInstruction)
    }


    /// Load byte, sign-extending.
    pub fn lb_emulate(&mut self, memory: &mut Monitor, instr: Instruction) -> (r: Result<
        (),
        RmipsError,
    >)
        requires
            old(self).wf(),
            old(memory).wf(),
        ensures
            final(self).wf(),
            final(memory).wf(),
            final(memory).bus == old(memory).bus,
            final(memory).watchpoints == old(memory).watchpoints,
            ({
                let paddr = old(self).cpzero.spec_translate(
                    spec_eaddr(old(self).gpr(spec_rs(instr.0)), instr.0),
                );
                match old(memory).bus.spec_fetch_byte(paddr) {
                    Ok(b) => {
                        &&& r is Ok
                        &&& final(self).reg@ == old(self).reg@.update(
                            spec_rt(instr.0) as int,
                            sign_extend_byte(b),
                        )
                        &&& unchanged_but_reg(*old(self), *final(self))
                        &&& final(memory).hit == recorded(
                            old(memory).watchpoints@,
                            old(memory).hit,
                            true,
                            Access { kind: AccessKind::Read, address: paddr, data: b as u32, len: 1 },
                        )
                    },
                    Err(e) => {
                        &&& r == Err::<(), RmipsError>(e)
                        &&& *final(self) == *old(self)
                        &&& final(memory).hit == old(memory).hit
                    },
                }
            }),
    {
        let base = self.reg[instr.rs()];
        let vaddress = base.wrapping_add(instr.simmed());
        let paddress = self.cpzero.translate(vaddress);
        let data = match memory.fetch_byte(paddress) {
            Ok(b) => b,
            Err(e) => {
                return Err(e);
            },
        };
        // Sign-extend the loaded byte.
        let v: u32 = if data >= 0x80 {
            data as u32 + 0xffff_ff00
        } else {
            data as u32
        };
        self.reg[instr.rt()] = v;
        Ok(())
    }

    /// Load byte unsigned, zero-extending.
    pub fn lbu_emulate(&mut self, memory: &mut Monitor, instr: Instruction) -> (r: Result<
        (),
        RmipsError,
    >)
        requires
            old(self).wf(),
            old(memory).wf(),
        ensures
            final(self).wf(),
            final(memory).wf(),
            final(memory).bus == old(memory).bus,
            final(memory).watchpoints == old(memory).watchpoints,
            ({
                let paddr = old(self).cpzero.spec_translate(
                    spec_eaddr(old(self).gpr(spec_rs(instr.0)), instr.0),
                );
                match old(memory).bus.spec_fetch_byte(paddr) {
                    Ok(b) => {
                        &&& r is Ok
                        &&& final(self).reg@ == old(self).reg@.update(
                            spec_rt(instr.0) as int,
                            b as u32,
                        )
                        &&& unchanged_but_reg(*old(self), *final(self))
                        &&& final(memory).hit == recorded(
                            old(memory).watchpoints@,
                            old(memory).hit,
                            true,
                            Access { kind: AccessKind::Read, address: paddr, data: b as u32, len: 1 },
                        )
                    },
                    Err(e) => {
                        &&& r == Err::<(), RmipsError>(e)
                        &&& *final(self) == *old(self)
                        &&& final(memory).hit == old(memory).hit
                    },
                }
            }),
    {
        let base = self.reg[instr.rs()];
        let vaddress = base.wrapping_add(instr.simmed());
        let paddress = self.cpzero.translate(vaddress);
        let data = match memory.fetch_byte(paddress) {
            Ok(b) => b,
            Err(e) => {
                return Err(e);
            },
        };
        // Zero-extend the loaded byte.
        self.reg[instr.rt()] = data as u32;
        Ok(())
    }

    /// Load halfword, sign-extending. A virtual address that is not two-byte
    /// aligned enters the `LoadAddressError` exception and loads nothing.
    pub fn lh_emulate(&mut self, memory: &mut Monitor, instr: Instruction) -> (r: Result<
        (),
        RmipsError,
    >)
        requires
            old(self).wf(),
            old(memory).wf(),
        ensures
            final(self).wf(),
            final(memory).wf(),
            final(memory).bus == old(memory).bus,
            final(memory).watchpoints == old(memory).watchpoints,
            ({
                let vaddr = spec_eaddr(old(self).gpr(spec_rs(instr.0)), instr.0);
                let paddr = old(self).cpzero.spec_translate(vaddr);
                if vaddr % 2 != 0 {
                    &&& r is Ok
                    &&& exception_entry_post(*old(self), *final(self), ExceptionCode::LoadAddressError)
                    &&& final(memory).hit == old(memory).hit
                } else {
                    match old(memory).bus.spec_fetch_halfword(paddr) {
                        Ok(h) => {
                            &&& r is Ok
                            &&& final(self).reg@ == old(self).reg@.update(
                                spec_rt(instr.0) as int,
                                sign_extend_half(h),
                            )
                            &&& unchanged_but_reg(*old(self), *final(self))
                            &&& final(memory).hit == recorded(
                                old(memory).watchpoints@,
                                old(memory).hit,
                                true,
                                Access {
                                    kind: AccessKind::Read,
                                    address: paddr,
                                    data: h as u32,
                                    len: 2,
                                },
                            )
                        },
                        Err(e) => {
                            &&& r == Err::<(), RmipsError>(e)
                            &&& *final(self) == *old(self)
                            &&& final(memory).hit == old(memory).hit
                        },
                    }
                }
            }),
    {
        let base = self.reg[instr.rs()];
        let vaddress = base.wrapping_add(instr.simmed());

        // Check for a halfword-aligned address.
        if vaddress % 2 != 0 {
            return self.exception(ExceptionCode::LoadAddressError);
        }
        let paddress = self.cpzero.translate(vaddress);
        let data = match memory.fetch_halfword(paddress) {
            Ok(h) => h,
            Err(e) => {
                return Err(e);
            },
        };
        // Sign-extend the loaded halfword.
        let v: u32 = if data >= 0x8000 {
            data as u32 + 0xffff_0000
        } else {
            data as u32
        };
        self.reg[instr.rt()] = v;
        Ok(())
    }

    /// Load halfword unsigned, zero-extending. A virtual address that is not
    /// two-byte aligned enters the `LoadAddressError` exception.
    pub fn lhu_emulate(&mut self, memory: &mut Monitor, instr: Instruction) -> (r: Result<
        (),
        RmipsError,
    >)
        requires
            old(self).wf(),
            old(memory).wf(),
        ensures
            final(self).wf(),
            final(memory).wf(),
            final(memory).bus == old(memory).bus,
            final(memory).watchpoints == old(memory).watchpoints,
            ({
                let vaddr = spec_eaddr(old(self).gpr(spec_rs(instr.0)), instr.0);
                let paddr = old(self).cpzero.spec_translate(vaddr);
                if vaddr % 2 != 0 {
                    &&& r is Ok
                    &&& exception_entry_post(*old(self), *final(self), ExceptionCode::LoadAddressError)
                    &&& final(memory).hit == old(memory).hit
                } else {
                    match old(memory).bus.spec_fetch_halfword(paddr) {
                        Ok(h) => {
                            &&& r is Ok
                            &&& final(self).reg@ == old(self).reg@.update(
                                spec_rt(instr.0) as int,
                                h as u32,
                            )
                            &&& unchanged_but_reg(*old(self), *final(self))
                            &&& final(memory).hit == recorded(
                                old(memory).watchpoints@,
                                old(memory).hit,
                                true,
                                Access {
                                    kind: AccessKind::Read,
                                    address: paddr,
                                    data: h as u32,
                                    len: 2,
                                },
                            )
                        },
                        Err(e) => {
                            &&& r == Err::<(), RmipsError>(e)
                            &&& *final(self) == *old(self)
                            &&& final(memory).hit == old(memory).hit
                        },
                    }
                }
            }),
    {
        let base = self.reg[instr.rs()];
        let vaddress = base.wrapping_add(instr.simmed());

        // Check for a halfword-aligned address.
        if vaddress % 2 != 0 {
            return self.exception(ExceptionCode::LoadAddressError);
        }
        let paddress = self.cpzero.translate(vaddress);
        let data = match memory.fetch_halfword(paddress) {
            Ok(h) => h,
            Err(e) => {
                return Err(e);
            },
        };
        // Zero-extend the loaded halfword.
        self.reg[instr.rt()] = data as u32;
        Ok(())
    }

    /// Load word. A virtual address that is not four-byte aligned enters the
    /// `LoadAddressError` exception and loads nothing.
    pub fn lw_emulate(&mut self, memory: &mut Monitor, instr: Instruction) -> (r: Result<
        (),
        RmipsError,
    >)
        requires
            old(self).wf(),
            old(memory).wf(),
        ensures
            final(self).wf(),
            final(memory).wf(),
            final(memory).bus == old(memory).bus,
            final(memory).watchpoints == old(memory).watchpoints,
            ({
                let vaddr = spec_eaddr(old(self).gpr(spec_rs(instr.0)), instr.0);
                let paddr = old(self).cpzero.spec_translate(vaddr);
                if vaddr % 4 != 0 {
                    &&& r is Ok
                    &&& exception_entry_post(*old(self), *final(self), ExceptionCode::LoadAddressError)
                    &&& final(memory).hit == old(memory).hit
                } else {
                    match old(memory).bus.spec_fetch_word(paddr) {
                        Ok(w) => {
                            &&& r is Ok
                            &&& final(self).reg@ == old(self).reg@.update(spec_rt(instr.0) as int, w)
                            &&& unchanged_but_reg(*old(self), *final(self))
                            &&& final(memory).hit == recorded(
                                old(memory).watchpoints@,
                                old(memory).hit,
                                true,
                                Access { kind: AccessKind::Read, address: paddr, data: w, len: 4 },
                            )
                        },
                        Err(e) => {
                            &&& r == Err::<(), RmipsError>(e)
                            &&& *final(self) == *old(self)
                            &&& final(memory).hit == old(memory).hit
                        },
                    }
                }
            }),
    {
        let base = self.reg[instr.rs()];
        let vaddress = base.wrapping_add(instr.simmed());

        // If either of the two least-significant bits of the virtual address
        // is set, a load address error occurs.
        if vaddress % 4 != 0 {
            return self.exception(ExceptionCode::LoadAddressError);
        }
        let paddress = self.cpzero.translate(vaddress);
        let data = match memory.fetch_word(paddress) {
            Ok(w) => w,
            Err(e) => {
                return Err(e);
            },
        };
        self.reg[instr.rt()] = data;
        Ok(())
    }

    /// Load word left. The unaligned-load pair is not implemented by this
    /// core: it enters the `ReservedInstruction` exception.
    pub fn lwl_emulate(&mut self) -> (r: Result<(), RmipsError>)
        requires
            old(self).wf(),
        ensures
            final(self).wf(),
            r is Ok,
            exception_entry_post(*old(self), *final(self), ExceptionCode::ReservedInstruction),
    {
        self.exception(ExceptionCode::ReservedInstruction)
    }

    /// Load word right. The unaligned-load pair is not implemented by this
    /// core: it enters the `ReservedInstruction` exception.
    pub fn lwr_emulate(&mut self) -> (r: Result<(), RmipsError>)
        requires
            old(self).wf(),
        ensures
            final(self).wf(),
            r is Ok,
            exception_entry_post(*old(self), *final(self), ExceptionCode::ReservedInstruction),
    {
        self.exception(ExceptionCode::ReservedInstruction)
    }

    /// Store byte.
    pub fn sb_emulate(&mut self, memory: &mut Monitor, instr: Instruction) -> (r: Result<
        (),
        RmipsError,
    >)
        requires
            old(self).wf(),
            old(memory).wf(),
        ensures
            final(self).wf(),
            final(memory).wf(),
            *final(self) == *old(self),
            final(memory).watchpoints == old(memory).watchpoints,
            ({
                let paddr = old(self).cpzero.spec_translate(
                    spec_eaddr(old(self).gpr(spec_rs(instr.0)), instr.0),
                );
                let data = (old(self).gpr(spec_rt(instr.0)) % 0x100) as u8;
                &&& store_byte_post(old(memory).bus, final(memory).bus, paddr, data, r)
                &&& final(memory).hit == recorded(
                    old(memory).watchpoints@,
                    old(memory).hit,
                    r is Ok,
                    Access { kind: AccessKind::Write, address: paddr, data: data as u32, len: 1 },
                )
            }),
    {
        let data = (self.reg[instr.rt()] % 0x100) as u8;
        let base = self.reg[instr.rs()];
        let vaddress = base.wrapping_add(instr.simmed());
        let paddress = self.cpzero.translate(vaddress);
        memory.store_byte(paddress, data)
    }

    /// Store halfword. A virtual address that is not two-byte aligned enters
    /// the `StoreAddressError` exception and stores nothing.
    pub fn sh_emulate(&mut self, memory: &mut Monitor, instr: Instruction) -> (r: Result<
        (),
        RmipsError,
    >)
        requires
            old(self).wf(),
            old(memory).wf(),
        ensures
            final(self).wf(),
            final(memory).wf(),
            final(memory).watchpoints == old(memory).watchpoints,
            ({
                let vaddr = spec_eaddr(old(self).gpr(spec_rs(instr.0)), instr.0);
                let paddr = old(self).cpzero.spec_translate(vaddr);
                let data = (old(self).gpr(spec_rt(instr.0)) % 0x1_0000) as u16;
                if vaddr % 2 != 0 {
                    &&& r is Ok
                    &&& exception_entry_post(*old(self), *final(self), ExceptionCode::StoreAddressError)
                    &&& *final(memory) == *old(memory)
                } else {
                    &&& *final(self) == *old(self)
                    &&& store_half_post(old(memory).bus, final(memory).bus, paddr, data, r)
                    &&& final(memory).hit == recorded(
                        old(memory).watchpoints@,
                        old(memory).hit,
                        r is Ok,
                        Access {
                            kind: AccessKind::Write,
                            address: paddr,
                            data: data as u32,
                            len: 2,
                        },
                    )
                }
            }),
    {
        let data = (self.reg[instr.rt()] % 0x1_0000) as u16;
        let base = self.reg[instr.rs()];
        let vaddress = base.wrapping_add(instr.simmed());

        // If the least-significant bit of the virtual address is set, a
        // store address error occurs.
        if vaddress % 2 != 0 {
            return self.exception(ExceptionCode::StoreAddressError);
        }
        let paddress = self.cpzero.translate(vaddress);
        memory.store_halfword(paddress, data)
    }

    /// Store word. A virtual address that is not four-byte aligned enters
    /// the `StoreAddressError` exception and stores nothing.
    pub fn sw_emulate(&mut self, memory: &mut Monitor, instr: Instruction) -> (r: Result<
        (),
        RmipsError,
    >)
        requires
            old(self).wf(),
            old(memory).wf(),
        ensures
            final(self).wf(),
            final(memory).wf(),
            final(memory).watchpoints == old(memory).watchpoints,
            ({
                let vaddr = spec_eaddr(old(self).gpr(spec_rs(instr.0)), instr.0);
                let paddr = old(self).cpzero.spec_translate(vaddr);
                let data = old(self).gpr(spec_rt(instr.0));
                if vaddr % 4 != 0 {
                    &&& r is Ok
                    &&& exception_entry_post(*old(self), *final(self), ExceptionCode::StoreAddressError)
                    &&& *final(memory) == *old(memory)
                } else {
                    &&& *final(self) == *old(self)
                    &&& store_word_post(old(memory).bus, final(memory).bus, paddr, data, r)
                    &&& final(memory).hit == recorded(
                        old(memory).watchpoints@,
                        old(memory).hit,
                        r is Ok,
                        Access { kind: AccessKind::Write, address: paddr, data, len: 4 },
                    )
                }
            }),
    {
        let data = self.reg[instr.rt()];
        let base = self.reg[instr.rs()];
        let vaddress = base.wrapping_add(instr.simmed());

        // If either of the two least-significant bits of the virtual address
        // is set, a store address error occurs.
        if vaddress % 4 != 0 {
            return self.exception(ExceptionCode::StoreAddressError);
        }
        let paddress = self.cpzero.translate(vaddress);
        memory.store_word(paddress, data)
    }

    /// Store word left. The unaligned-store pair is not implemented by this
    /// core: it enters the `ReservedInstruction` exception.
    pub fn swl_emulate(&mut self) -> (r: Result<(), RmipsError>)
        requires
            old(self).wf(),
        ensures
            final(self).wf(),
            r is Ok,
            exception_entry_post(*old(self), *final(self), ExceptionCode::ReservedInstruction),
    {
        self.exception(ExceptionCode::ReservedInstruction)
    }

    /// Store word right. The unaligned-store pair is not implemented by this
    /// core: it enters the `ReservedInstruction` exception.
    pub fn swr_emulate(&mut self) -> (r: Result<(), RmipsError>)
        requires
            old(self).wf(),
        ensures
            final(self).wf(),
            r is Ok,
            exception_entry_post(*old(self), *final(self), ExceptionCode::ReservedInstruction),
    {
        self.exception(ExceptionCode::ReservedInstruction)
    }

    /// Load word into coprocessor 1, which is not present: raises
    /// `CoprocessorUnusable`.
    pub fn lwc1_emulate(&mut self, instr: Instruction) -> (r: Result<(), RmipsError>)
        requires
            old(self).wf(),
        ensures
            final(self).wf(),
            r is Ok,
            coprocessor_unusable_post(*old(self), *final(self), 1),
    {
        self.coprocessor_unimpl(1, instr)
    }

    /// Load word into coprocessor 2, which is not present: raises
    /// `CoprocessorUnusable`.
    pub fn lwc2_emulate(&mut self, instr: Instruction) -> (r: Result<(), RmipsError>)
        requires
            old(self).wf(),
        ensures
            final(self).wf(),
            r is Ok,
            coprocessor_unusable_post(*old(self), *final(self), 2),
    {
        self.coprocessor_unimpl(2, instr)
    }

    /// Load word into coprocessor 3, which is not present: raises
    /// `CoprocessorUnusable`.
    pub fn lwc3_emulate(&mut self, instr: Instruction) -> (r: Result<(), RmipsError>)
        requires
            old(self).wf(),
        ensures
            final(self).wf(),
            r is Ok,
            coprocessor_unusable_post(*old(self), *final(self), 3),
    {
        self.coprocessor_unimpl(3, instr)
    }

    /// Store word from coprocessor 1, which is not present: raises
    /// `CoprocessorUnusable`.
    pub fn swc1_emulate(&mut self, instr: Instruction) -> (r: Result<(), RmipsError>)
        requires
            old(self).wf(),
        ensures
            final(self).wf(),
            r is Ok,
            coprocessor_unusable_post(*old(self), *final(self), 1),
    {
        self.coprocessor_unimpl(1, instr)
    }

    /// Store word from coprocessor 2, which is not present: raises
    /// `CoprocessorUnusable`.
    pub fn swc2_emulate(&mut self, instr: Instruction) -> (r: Result<(), RmipsError>)
        requires
            old(self).wf(),
        ensures
            final(self).wf(),
            r is Ok,
            coprocessor_unusable_post(*old(self), *final(self), 2),
    {
        self.coprocessor_unimpl(2, instr)
    }

    /// Store word from coprocessor 3, which is not present: raises
    /// `CoprocessorUnusable`.
    pub fn swc3_emulate(&mut self, instr: Instruction) -> (r: Result<(), RmipsError>)
        requires
            old(self).wf(),
        ensures
            final(self).wf(),
            r is Ok,
            coprocessor_unusable_post(*old(self), *final(self), 3),
    {
        self.coprocessor_unimpl(3, instr)
    }

    /// Records the taken branch: the two-stage delay discipline starts and
    /// the target is saved.
    fn control_transfer(&mut self, dest: Address)
        ensures
            final(self).delay_state == DelayState::Delaying,
            final(self).delay_pc == dest,
            unchanged_but_delay(*old(self), *final(self)),
            final(self).reg == old(self).reg,
    {
        self.delay_state = DelayState::Delaying;
        self.delay_pc = dest;
    }

    /// Takes a PC-relative branch.
    fn branch(&mut self, instr: Instruction)
        ensures
            final(self).delay_state == DelayState::Delaying,
            final(self).delay_pc == spec_branch_target(old(self).pc, instr.0),
            unchanged_but_delay(*old(self), *final(self)),
            final(self).reg == old(self).reg,
    {
        // The branch displacement is relative to the delay slot.
        let offset = instr.simmed() << 2;
        let target = self.pc.wrapping_add(4).wrapping_add(offset);
        self.control_transfer(target);
    }

    /// Takes a J-format jump.
    fn jump(&mut self, instr: Instruction)
        ensures
            final(self).delay_state == DelayState::Delaying,
            final(self).delay_pc == spec_jump_target(old(self).pc, instr.0),
            unchanged_but_delay(*old(self), *final(self)),
            final(self).reg == old(self).reg,
    {
        let target = (self.pc.wrapping_add(4) & 0xf000_0000) | (instr.jumptarget() << 2);
        self.control_transfer(target);
    }
}

/// Logical right shift.
fn srl(a: u32, b: u32) -> (r: u32)
    requires
        b < 32,
    ensures
        r == a >> b,
{
    a >> b
}

/// Arithmetic right shift: the sign bit fills the vacated positions.
fn sra(a: u32, b: u32) -> (r: u32)
    requires
        b < 32,
    ensures
        r == ((a as i32) >> b) as u32,
{
    ((a as i32) >> b) as u32
}

/// A five-bit mask keeps a value below 32.
proof fn lemma_mask5_bound(x: u32)
    by (bit_vector)
    ensures
        x & 0x1f < 32,
{
}


/// A shift of `rd` into itself by zero places is the canonical no-op: the
/// register file that `sll` produces is the one it started from.
pub proof fn lemma_sll_zero_is_nop(regs: Seq<u32>, w: u32)
    requires
        regs.len() == 32,
        spec_shamt(w) == 0,
        spec_rd(w) == spec_rt(w),
    ensures
        regs.update(spec_rd(w) as int, regs[spec_rt(w) as int] << spec_shamt(w)) == regs,
{
    let v = regs[spec_rt(w) as int];
    assert(v << 0u32 == v) by (bit_vector);
    assert(regs.update(spec_rd(w) as int, regs[spec_rt(w) as int] << spec_shamt(w)) =~= regs);
}


/// The exact relation between the machine before and after executing one
/// decoded instruction word: the dispatch table of the interpreter, at the
/// specification level.
///
/// `pre`/`mpre` are the processor and monitored bus just after the fetch,
/// `post`/`mpost` the same just after the per-opcode routine ran, and `r`
/// its result. Each arm restates the routine's own contract; opcodes and
/// sub-opcodes outside the table enter the reserved-instruction exception.
///
/// The definition is kept opaque: callers of the step compose it as one
/// relation, and only the dispatcher itself reasons under it.
#[verifier::opaque]
pub open spec fn op_post(
    pre: Cpu,
    mpre: Monitor,
    instr: Instruction,
    post: Cpu,
    mpost: Monitor,
    r: Result<(), RmipsError>,
) -> bool {
    let w = instr.0;
    let op = crate::instruction::spec_opcode(w);
    if op == 0x20 || op == 0x21 || op == 0x23 || op == 0x24 || op == 0x25 || op == 0x28 || op
        == 0x29 || op == 0x2b {
        mem_op_post(pre, mpre, instr, post, mpost, r)
    } else {
        mpost == mpre && cpu_op_post(pre, instr, post, r)
    }
}

/// The arm of [`op_post`] for the instructions that do not touch memory.
pub open spec fn cpu_op_post(pre: Cpu, instr: Instruction, post: Cpu, r: Result<
    (),
    RmipsError,
>) -> bool {
    let w = instr.0;
    let op = crate::instruction::spec_opcode(w);
    let rs = spec_rs(w);
    let rt = spec_rt(w);
    let rd = spec_rd(w);
    if op == 0x00 {
        let f = crate::instruction::spec_funct(w);
        if f == 0x00 {
            r is Ok && post.reg@ == pre.reg@.update(
                rd as int,
                pre.gpr(rt) << spec_shamt(w),
            ) && unchanged_but_reg(pre, post)
        } else if f == 0x02 {
            r is Ok && post.reg@ == pre.reg@.update(
                rd as int,
                pre.gpr(rt) >> spec_shamt(w),
            ) && unchanged_but_reg(pre, post)
        } else if f == 0x03 {
            r is Ok && post.reg@ == pre.reg@.update(
                rd as int,
                ((pre.gpr(rt) as i32) >> spec_shamt(w)) as u32,
            ) && unchanged_but_reg(pre, post)
        } else if f == 0x04 {
            r is Ok && post.reg@ == pre.reg@.update(
                rd as int,
                pre.gpr(rt) << (pre.gpr(rs) & 0x1f),
            ) && unchanged_but_reg(pre, post)
        } else if f == 0x06 {
            r is Ok && post.reg@ == pre.reg@.update(
                rd as int,
                pre.gpr(rt) >> (pre.gpr(rs) & 0x1f),
            ) && unchanged_but_reg(pre, post)
        } else if f == 0x07 {
            r is Ok && post.reg@ == pre.reg@.update(
                rd as int,
                ((pre.gpr(rt) as i32) >> (pre.gpr(rs) & 0x1f)) as u32,
            ) && unchanged_but_reg(pre, post)
        } else if f == 0x08 {
            r is Ok && post.delay_state == DelayState::Delaying && post.delay_pc == pre.gpr(rs)
                && unchanged_but_delay(pre, post) && post.reg == pre.reg
        } else if f == 0x09 {
            r is Ok && post.delay_state == DelayState::Delaying && post.delay_pc == pre.gpr(rs)
                && post.reg@ == pre.reg@.update(rd as int, spec_link(pre.pc))
                && unchanged_but_reg_delay(pre, post)
        } else if f == 0x0c {
            r is Ok && exception_entry_post(pre, post, ExceptionCode::Syscall)
        } else if f == 0x0d {
            r == Err::<(), RmipsError>(RmipsError::Halt) && post == pre
        } else if f == 0x10 {
            r is Ok && post.reg@ == pre.reg@.update(rd as int, pre.high) && unchanged_but_reg(
                pre,
                post,
            )
        } else if f == 0x11 {
            r is Ok && post.high == pre.gpr(rs) && post.low == pre.low && unchanged_but_hilo(
                pre,
                post,
            )
        } else if f == 0x12 {
            r is Ok && post.reg@ == pre.reg@.update(rd as int, pre.low) && unchanged_but_reg(
                pre,
                post,
            )
        } else if f == 0x13 {
            r is Ok && post.low == pre.gpr(rs) && post.high == pre.high && unchanged_but_hilo(
                pre,
                post,
            )
        } else if f == 0x18 {
            r is Ok && post.low == (mult_value(pre.gpr(rs), pre.gpr(rt)) & 0xffff_ffff) as u32
                && post.high == ((mult_value(pre.gpr(rs), pre.gpr(rt)) >> 32) & 0xffff_ffff) as u32
                && unchanged_but_hilo(pre, post)
        } else if f == 0x19 {
            r is Ok && post.low == (multu_value(pre.gpr(rs), pre.gpr(rt)) % 0x1_0000_0000) as u32
                && post.high == (multu_value(pre.gpr(rs), pre.gpr(rt)) / 0x1_0000_0000) as u32
                && unchanged_but_hilo(pre, post)
        } else if f == 0x1a {
            r is Ok && post.low == div_lo(pre.gpr(rs), pre.gpr(rt)) && post.high == div_hi(
                pre.gpr(rs),
                pre.gpr(rt),
            ) && unchanged_but_hilo(pre, post)
        } else if f == 0x1b {
            r is Ok && post.low == divu_lo(pre.gpr(rs), pre.gpr(rt)) && post.high == divu_hi(
                pre.gpr(rs),
                pre.gpr(rt),
            ) && unchanged_but_hilo(pre, post)
        } else if f == 0x20 {
            r is Ok && if add_overflows(pre.gpr(rs), pre.gpr(rt)) {
                exception_entry_post(pre, post, ExceptionCode::Overflow)
            } else {
                post.reg@ == pre.reg@.update(rd as int, add_result(pre.gpr(rs), pre.gpr(rt)))
                    && unchanged_but_reg(pre, post)
            }
        } else if f == 0x21 {
            r is Ok && post.reg@ == pre.reg@.update(
                rd as int,
                pre.gpr(rs).wrapping_add(pre.gpr(rt)),
            ) && unchanged_but_reg(pre, post)
        } else if f == 0x22 {
            r is Ok && if sub_overflows(pre.gpr(rs), pre.gpr(rt)) {
                exception_entry_post(pre, post, ExceptionCode::Overflow)
            } else {
                post.reg@ == pre.reg@.update(rd as int, sub_result(pre.gpr(rs), pre.gpr(rt)))
                    && unchanged_but_reg(pre, post)
            }
        } else if f == 0x23 {
            r is Ok && post.reg@ == pre.reg@.update(
                rd as int,
                pre.gpr(rs).wrapping_sub(pre.gpr(rt)),
            ) && unchanged_but_reg(pre, post)
        } else if f == 0x24 {
            r is Ok && post.reg@ == pre.reg@.update(rd as int, pre.gpr(rs) & pre.gpr(rt))
                && unchanged_but_reg(pre, post)
        } else if f == 0x25 {
            r is Ok && post.reg@ == pre.reg@.update(rd as int, pre.gpr(rs) | pre.gpr(rt))
                && unchanged_but_reg(pre, post)
        } else if f == 0x26 {
            r is Ok && post.reg@ == pre.reg@.update(rd as int, pre.gpr(rs) ^ pre.gpr(rt))
                && unchanged_but_reg(pre, post)
        } else if f == 0x27 {
            r is Ok && post.reg@ == pre.reg@.update(rd as int, !(pre.gpr(rs) | pre.gpr(rt)))
                && unchanged_but_reg(pre, post)
        } else if f == 0x2a {
            r is Ok && post.reg@ == pre.reg@.update(
                rd as int,
                if lt_signed(pre.gpr(rs), pre.gpr(rt)) {
                    1u32
                } else {
                    0u32
                },
            ) && unchanged_but_reg(pre, post)
        } else if f == 0x2b {
            r is Ok && post.reg@ == pre.reg@.update(
                rd as int,
                if pre.gpr(rs) < pre.gpr(rt) {
                    1u32
                } else {
                    0u32
                },
            ) && unchanged_but_reg(pre, post)
        } else {
            r is Ok && exception_entry_post(pre, post, ExceptionCode::ReservedInstruction)
        }
    } else if op == 0x01 {
        if rt == 0 {
            r is Ok && unchanged_but_delay(pre, post) && if lt_signed(pre.gpr(rs), 0) {
                post.delay_state == DelayState::Delaying && post.delay_pc == spec_branch_target(
                    pre.pc,
                    w,
                )
            } else {
                post == pre
            }
        } else if rt == 1 {
            r is Ok && unchanged_but_delay(pre, post) && if !lt_signed(pre.gpr(rs), 0) {
                post.delay_state == DelayState::Delaying && post.delay_pc == spec_branch_target(
                    pre.pc,
                    w,
                )
            } else {
                post == pre
            }
        } else if rt == 16 {
            let linked = pre.reg@.update(31, spec_link(pre.pc));
            r is Ok && post.reg@ == linked && unchanged_but_reg_delay(pre, post) && if lt_signed(
                linked[rs as int],
                0,
            ) {
                post.delay_state == DelayState::Delaying && post.delay_pc == spec_branch_target(
                    pre.pc,
                    w,
                )
            } else {
                post.delay_state == pre.delay_state && post.delay_pc == pre.delay_pc
            }
        } else if rt == 17 {
            let linked = pre.reg@.update(31, spec_link(pre.pc));
            r is Ok && post.reg@ == linked && unchanged_but_reg_delay(pre, post) && if !lt_signed(
                linked[rs as int],
                0,
            ) {
                post.delay_state == DelayState::Delaying && post.delay_pc == spec_branch_target(
                    pre.pc,
                    w,
                )
            } else {
                post.delay_state == pre.delay_state && post.delay_pc == pre.delay_pc
            }
        } else {
            r is Ok && exception_entry_post(pre, post, ExceptionCode::ReservedInstruction)
        }
    } else if op == 0x02 {
        r is Ok && post.delay_state == DelayState::Delaying && post.delay_pc == spec_jump_target(
            pre.pc,
            w,
        ) && unchanged_but_delay(pre, post) && post.reg == pre.reg
    } else if op == 0x03 {
        r is Ok && post.delay_state == DelayState::Delaying && post.delay_pc == spec_jump_target(
            pre.pc,
            w,
        ) && post.reg@ == pre.reg@.update(31, spec_link(pre.pc)) && unchanged_but_reg_delay(
            pre,
            post,
        )
    } else if op == 0x04 {
        r is Ok && unchanged_but_delay(pre, post) && if pre.gpr(rs) == pre.gpr(rt) {
            post.delay_state == DelayState::Delaying && post.delay_pc == spec_branch_target(
                pre.pc,
                w,
            )
        } else {
            post == pre
        }
    } else if op == 0x05 {
        r is Ok && unchanged_but_delay(pre, post) && if pre.gpr(rs) != pre.gpr(rt) {
            post.delay_state == DelayState::Delaying && post.delay_pc == spec_branch_target(
                pre.pc,
                w,
            )
        } else {
            post == pre
        }
    } else if op == 0x06 {
        r is Ok && unchanged_but_delay(pre, post) && if pre.gpr(rs) == 0 || pre.gpr(rs)
            & 0x8000_0000 != 0 {
            post.delay_state == DelayState::Delaying && post.delay_pc == spec_branch_target(
                pre.pc,
                w,
            )
        } else {
            post == pre
        }
    } else if op == 0x07 {
        r is Ok && unchanged_but_delay(pre, post) && if pre.gpr(rs) != 0 && pre.gpr(rs)
            & 0x8000_0000 == 0 {
            post.delay_state == DelayState::Delaying && post.delay_pc == spec_branch_target(
                pre.pc,
                w,
            )
        } else {
            post == pre
        }
    } else if op == 0x08 {
        r is Ok && if add_overflows(pre.gpr(rs), spec_simmed(w)) {
            exception_entry_post(pre, post, ExceptionCode::Overflow)
        } else {
            post.reg@ == pre.reg@.update(rt as int, add_result(pre.gpr(rs), spec_simmed(w)))
                && unchanged_but_reg(pre, post)
        }
    } else if op == 0x09 {
        r is Ok && post.reg@ == pre.reg@.update(
            rt as int,
            pre.gpr(rs).wrapping_add(spec_simmed(w)),
        ) && unchanged_but_reg(pre, post)
    } else if op == 0x0a {
        r is Ok && post.reg@ == pre.reg@.update(
            rt as int,
            if lt_signed(pre.gpr(rs), spec_simmed(w)) {
                1u32
            } else {
                0u32
            },
        ) && unchanged_but_reg(pre, post)
    } else if op == 0x0b {
        r is Ok && post.reg@ == pre.reg@.update(
            rt as int,
            if pre.gpr(rs) < spec_simmed(w) {
                1u32
            } else {
                0u32
            },
        ) && unchanged_but_reg(pre, post)
    } else if op == 0x0c {
        r is Ok && post.reg@ == pre.reg@.update(
            rt as int,
            pre.gpr(rs) & crate::instruction::spec_immed(w),
        ) && unchanged_but_reg(pre, post)
    } else if op == 0x0d {
        r is Ok && post.reg@ == pre.reg@.update(
            rt as int,
            pre.gpr(rs) | crate::instruction::spec_immed(w),
        ) && unchanged_but_reg(pre, post)
    } else if op == 0x0e {
        r is Ok && post.reg@ == pre.reg@.update(
            rt as int,
            pre.gpr(rs) ^ crate::instruction::spec_immed(w),
        ) && unchanged_but_reg(pre, post)
    } else if op == 0x0f {
        r is Ok && post.reg@ == pre.reg@.update(
            rt as int,
            crate::instruction::spec_immed(w) << 16,
        ) && unchanged_but_reg(pre, post)
    } else if op == 0x10 {
        if rs > 15 {
            let f = crate::instruction::spec_funct(w);
            if f == 1 {
                r is Ok && post == (Cpu {
                    cpzero: crate::cpzero::CPZero {
                        entryhi: pre.cpzero.tlb@[pre.cpzero.index.spec_index() as int].entryhi,
                        entrylo: pre.cpzero.tlb@[pre.cpzero.index.spec_index() as int].entrylo,
                        ..pre.cpzero
                    },
                    ..pre
                })
            } else if f == 2 {
                r is Ok && post == (Cpu {
                    cpzero: crate::cpzero::CPZero { tlb: post.cpzero.tlb, ..pre.cpzero },
                    ..pre
                }) && post.cpzero.tlb@ == pre.cpzero.tlb@.update(
                    pre.cpzero.index.spec_index() as int,
                    crate::tlbentry::TlbEntry {
                        entryhi: pre.cpzero.entryhi,
                        entrylo: pre.cpzero.entrylo,
                    },
                )
            } else if f == 6 {
                r is Ok && post == (Cpu {
                    cpzero: crate::cpzero::CPZero { tlb: post.cpzero.tlb, ..pre.cpzero },
                    ..pre
                }) && post.cpzero.tlb@ == pre.cpzero.tlb@.update(
                    pre.cpzero.random.spec_value() as int,
                    crate::tlbentry::TlbEntry {
                        entryhi: pre.cpzero.entryhi,
                        entrylo: pre.cpzero.entrylo,
                    },
                )
            } else if f == 8 {
                r is Ok && post == (Cpu {
                    cpzero: crate::cpzero::CPZero { index: post.cpzero.index, ..pre.cpzero },
                    ..pre
                }) && match crate::cpzero::spec_tlb_probe(pre.cpzero.tlb@, pre.cpzero.entryhi, 0) {
                    Some(i) => post.cpzero.index.bits == crate::bits::spec_set_bit(
                        crate::bits::spec_set_field(pre.cpzero.index.bits, 8, 6, i as u32),
                        31,
                        false,
                    ),
                    None => post.cpzero.index.bits == crate::bits::spec_set_bit(
                        pre.cpzero.index.bits,
                        31,
                        true,
                    ),
                }
            } else if f == 16 {
                r is Ok && post == (Cpu {
                    cpzero: crate::cpzero::CPZero { status: post.cpzero.status, ..pre.cpzero },
                    ..pre
                }) && post.cpzero.status.bits
                    == crate::registers::status::spec_status_pop(pre.cpzero.status.bits)
            } else {
                r is Ok && exception_entry_post(pre, post, ExceptionCode::ReservedInstruction)
            }
        } else {
            if rs == 0 {
                r is Ok && post.reg@ == pre.reg@.update(
                    rt as int,
                    pre.cpzero.spec_read_reg(rd as u32),
                ) && unchanged_but_reg(pre, post)
            } else if rs == 4 {
                r is Ok && post == (Cpu {
                    cpzero: pre.cpzero.spec_write_reg(rd as u32, pre.gpr(rt)),
                    ..pre
                })
            } else {
                r is Ok && exception_entry_post(pre, post, ExceptionCode::ReservedInstruction)
            }
        }
    } else if op == 0x11 {
        r is Ok && coprocessor_unusable_post(pre, post, 1)
    } else if op == 0x12 {
        r is Ok && coprocessor_unusable_post(pre, post, 2)
    } else if op == 0x13 {
        r is Ok && coprocessor_unusable_post(pre, post, 3)
    } else if op == 0x22 || op == 0x26 || op == 0x2a || op == 0x2e {
        r is Ok && exception_entry_post(pre, post, ExceptionCode::ReservedInstruction)
    } else if op == 0x31 || op == 0x38 {
        r is Ok && coprocessor_unusable_post(pre, post, 1)
    } else if op == 0x32 || op == 0x39 {
        r is Ok && coprocessor_unusable_post(pre, post, 2)
    } else if op == 0x33 || op == 0x3a {
        r is Ok && coprocessor_unusable_post(pre, post, 3)
    } else {
        r is Ok && exception_entry_post(pre, post, ExceptionCode::ReservedInstruction)
    }
}

/// The arm of [`op_post`] for the loads and stores.
pub open spec fn mem_op_post(
    pre: Cpu,
    mpre: Monitor,
    instr: Instruction,
    post: Cpu,
    mpost: Monitor,
    r: Result<(), RmipsError>,
) -> bool {
    let w = instr.0;
    let op = crate::instruction::spec_opcode(w);
    let rt = spec_rt(w);
    let vaddr = spec_eaddr(pre.gpr(spec_rs(w)), w);
    let paddr = pre.cpzero.spec_translate(vaddr);
    let watch = mpre.watchpoints@;
    if op == 0x20 || op == 0x24 {
        // lb and lbu
        &&& mpost.bus == mpre.bus
        &&& mpost.watchpoints == mpre.watchpoints
        &&& match mpre.bus.spec_fetch_byte(paddr) {
            Ok(b) => {
                &&& r is Ok
                &&& post.reg@ == pre.reg@.update(
                    rt as int,
                    if op == 0x20 {
                        sign_extend_byte(b)
                    } else {
                        b as u32
                    },
                )
                &&& unchanged_but_reg(pre, post)
                &&& mpost.hit == recorded(
                    watch,
                    mpre.hit,
                    true,
                    Access { kind: AccessKind::Read, address: paddr, data: b as u32, len: 1 },
                )
            },
            Err(e) => {
                &&& r == Err::<(), RmipsError>(e)
                &&& post == pre
                &&& mpost.hit == mpre.hit
            },
        }
    } else if op == 0x21 || op == 0x25 {
        // lh and lhu
        &&& mpost.bus == mpre.bus
        &&& mpost.watchpoints == mpre.watchpoints
        &&& if vaddr % 2 != 0 {
            &&& r is Ok
            &&& exception_entry_post(pre, post, ExceptionCode::LoadAddressError)
            &&& mpost.hit == mpre.hit
        } else {
            match mpre.bus.spec_fetch_halfword(paddr) {
                Ok(h) => {
                    &&& r is Ok
                    &&& post.reg@ == pre.reg@.update(
                        rt as int,
                        if op == 0x21 {
                            sign_extend_half(h)
                        } else {
                            h as u32
                        },
                    )
                    &&& unchanged_but_reg(pre, post)
                    &&& mpost.hit == recorded(
                        watch,
                        mpre.hit,
                        true,
                        Access { kind: AccessKind::Read, address: paddr, data: h as u32, len: 2 },
                    )
                },
                Err(e) => {
                    &&& r == Err::<(), RmipsError>(e)
                    &&& post == pre
                    &&& mpost.hit == mpre.hit
                },
            }
        }
    } else if op == 0x23 {
        // lw
        &&& mpost.bus == mpre.bus
        &&& mpost.watchpoints == mpre.watchpoints
        &&& if vaddr % 4 != 0 {
            &&& r is Ok
            &&& exception_entry_post(pre, post, ExceptionCode::LoadAddressError)
            &&& mpost.hit == mpre.hit
        } else {
            match mpre.bus.spec_fetch_word(paddr) {
                Ok(v) => {
                    &&& r is Ok
                    &&& post.reg@ == pre.reg@.update(rt as int, v)
                    &&& unchanged_but_reg(pre, post)
                    &&& mpost.hit == recorded(
                        watch,
                        mpre.hit,
                        true,
                        Access { kind: AccessKind::Read, address: paddr, data: v, len: 4 },
                    )
                },
                Err(e) => {
                    &&& r == Err::<(), RmipsError>(e)
                    &&& post == pre
                    &&& mpost.hit == mpre.hit
                },
            }
        }
    } else if op == 0x28 {
        // sb
        let data = (pre.gpr(rt) % 0x100) as u8;
        &&& post == pre
        &&& mpost.watchpoints == mpre.watchpoints
        &&& store_byte_post(mpre.bus, mpost.bus, paddr, data, r)
        &&& mpost.hit == recorded(
            watch,
            mpre.hit,
            r is Ok,
            Access { kind: AccessKind::Write, address: paddr, data: data as u32, len: 1 },
        )
    } else if op == 0x29 {
        // sh
        let data = (pre.gpr(rt) % 0x1_0000) as u16;
        &&& mpost.watchpoints == mpre.watchpoints
        &&& if vaddr % 2 != 0 {
            &&& r is Ok
            &&& exception_entry_post(pre, post, ExceptionCode::StoreAddressError)
            &&& mpost == mpre
        } else {
            &&& post == pre
            &&& store_half_post(mpre.bus, mpost.bus, paddr, data, r)
            &&& mpost.hit == recorded(
                watch,
                mpre.hit,
                r is Ok,
                Access { kind: AccessKind::Write, address: paddr, data: data as u32, len: 2 },
            )
        }
    } else {
        // sw
        let data = pre.gpr(rt);
        &&& mpost.watchpoints == mpre.watchpoints
        &&& if vaddr % 4 != 0 {
            &&& r is Ok
            &&& exception_entry_post(pre, post, ExceptionCode::StoreAddressError)
            &&& mpost == mpre
        } else {
            &&& post == pre
            &&& store_word_post(mpre.bus, mpost.bus, paddr, data, r)
            &&& mpost.hit == recorded(
                watch,
                mpre.hit,
                r is Ok,
                Access { kind: AccessKind::Write, address: paddr, data, len: 4 },
            )
        }
    }
}

} // verus!
