//! The processor: architectural state, exception entry, and the
//! fetch/decode/execute step.

use vstd::prelude::*;
use crate::bits::spec_get_bit;
use crate::cpzero::{spec_cause_entry, CPZero};
use crate::exception::{spec_exception_code, ExceptionCode};
use crate::instruction::Instruction;
use crate::instructions::op_post;
use crate::memory::monitor::{recorded, Access, AccessKind, Monitor};
use crate::registers::status::spec_status_push;
use crate::error::RmipsError;
use crate::Address;

verus! {

/// Where the processor stands in the two-stage branch delay discipline.
///
/// A taken branch sets `Delaying`; the next step executes the delay-slot
/// instruction and moves to `Delayslot`; the step after that transfers
/// control to the saved target and returns to `Normal`.
#[derive(Copy, Clone, Debug, PartialEq, Eq, Structural)]
pub enum DelayState {
    /// No delay slot handling needs to occur.
    Normal,
    /// The last instruction caused a branch to be taken.
    Delaying,
    /// The last instruction was executed in a delay slot.
    Delayslot,
}

/// The address of the exception handler entered for `code`: the bootstrap
/// or RAM vector base, plus the dedicated user-TLB-miss offset when a TLB
/// miss came from user space.
pub open spec fn spec_exception_vector(bev: bool, code: ExceptionCode, tlb_miss_user: bool) -> u32 {
    let base: u32 = if bev {
        0xbfc0_0100
    } else {
        0x8000_0000
    };
    let offset: u32 = if (code == ExceptionCode::TLBLoadMiss || code == ExceptionCode::TLBStoreMiss)
        && tlb_miss_user {
        0x000
    } else {
        0x080
    };
    (base + offset) as u32
}

/// The MIPS R3000A processor core.
pub struct Cpu {
    /// The program counter.
    pub pc: Address,
    /// General-purpose registers; always 32 of them, and register 0 reads
    /// as zero at every step boundary.
    pub reg: Vec<u32>,
    /// The current instruction, retained for diagnostics.
    pub instruction: Instruction,
    /// High multiply/divide result register.
    pub high: u32,
    /// Low multiply/divide result register.
    pub low: u32,
    /// Where the processor stands in the branch delay discipline.
    pub delay_state: DelayState,
    /// Saved target address for delayed branches.
    pub delay_pc: Address,
    /// Whether an exception was entered during the current step.
    pub exception_pending: bool,
    /// The system control coprocessor.
    pub cpzero: CPZero,
}

/// Relation between the processor before and after an exception entry for
/// `code`: CP0 records the restart address, mode stack and cause; the
/// program counter moves to the handler vector; everything else stays.
pub open spec fn exception_entry_post(pre: Cpu, post: Cpu, code: ExceptionCode) -> bool {
    let delayslot = pre.delay_state == DelayState::Delayslot;
    &&& post.exception_pending
    &&& post.pc == spec_exception_vector(
        pre.cpzero.status.spec_bootstrap_mode(),
        code,
        pre.cpzero.tlb_miss_user,
    )
    &&& post.cpzero.epc.address == if delayslot {
        pre.pc.wrapping_sub(4)
    } else {
        pre.pc
    }
    &&& post.cpzero.status.bits == spec_status_push(pre.cpzero.status.bits)
    &&& post.cpzero.status.spec_kernel_mode()
    &&& !post.cpzero.status.spec_interrupts_enabled()
    &&& post.cpzero.cause.bits == spec_cause_entry(code, delayslot)
    &&& post.cpzero.cause.spec_branch_delay() == delayslot
    &&& post.cpzero.cause.spec_exception_field() == spec_exception_code(code)
    &&& post.reg == pre.reg
    &&& post.high == pre.high
    &&& post.low == pre.low
    &&& post.delay_state == pre.delay_state
    &&& post.delay_pc == pre.delay_pc
    &&& post.instruction == pre.instruction
    &&& post.cpzero.index == pre.cpzero.index
    &&& post.cpzero.random == pre.cpzero.random
    &&& post.cpzero.entrylo == pre.cpzero.entrylo
    &&& post.cpzero.context == pre.cpzero.context
    &&& post.cpzero.badvaddr == pre.cpzero.badvaddr
    &&& post.cpzero.entryhi == pre.cpzero.entryhi
    &&& post.cpzero.prid == pre.cpzero.prid
    &&& post.cpzero.tlb_miss_user == pre.cpzero.tlb_miss_user
    &&& post.cpzero.tlb == pre.cpzero.tlb
}

impl Cpu {
    /// The register file holds 32 registers and CP0 is sound.
    pub open spec fn wf(self) -> bool {
        &&& self.reg@.len() == 32
        &&& self.cpzero.wf()
    }

    /// Value of general-purpose register `i`.
    pub open spec fn gpr(self, i: usize) -> u32 {
        self.reg@[i as int]
    }

    /// Returns a processor with every register zero and CP0 in its power-on
    /// state.
    pub fn new() -> (r: Cpu)
        ensures
            r.wf(),
            r.pc == 0,
            forall|i: int| 0 <= i < 32 ==> r.reg@[i] == 0u32,
            r.instruction.0 == 0,
            r.high == 0,
            r.low == 0,
            r.delay_state == DelayState::Normal,
            r.delay_pc == 0,
            !r.exception_pending,
            r.cpzero.status.bits == 0,
            r.cpzero.status.spec_kernel_mode(),
    {
        let c = Cpu {
            pc: 0,
            reg: vec![0u32; 32],
            instruction: Instruction(0),
            high: 0,
            low: 0,
            delay_state: DelayState::Normal,
            delay_pc: 0,
            exception_pending: false,
            cpzero: CPZero::new(),
        };
        proof {
            assert(!spec_get_bit(0u32, 1)) by (bit_vector);
        }
        c
    }

    /// Resets the processor to its startup state: register 0 cleared, the
    /// program counter at the uncached ROM entry, and CP0 reset.
    pub fn reset(&mut self)
        requires
            old(self).wf(),
        ensures
            final(self).wf(),
            final(self).pc == 0xbfc0_0000,
            final(self).reg@ == old(self).reg@.update(0, 0u32),
            final(self).cpzero.random.spec_value() == 63,
            final(self).cpzero.status.spec_bootstrap_mode(),
            final(self).cpzero.status.spec_kernel_mode(),
            !final(self).cpzero.status.spec_interrupts_enabled(),
            final(self).cpzero.status.bits == crate::cpzero::spec_reset_status(
                old(self).cpzero.status.bits,
            ),
            old(self).cpzero.status.bits == 0 ==> final(self).cpzero.status.bits == 0x0040_0000,
            final(self).cpzero.prid.bits == 0x230,
            final(self).high == old(self).high,
            final(self).low == old(self).low,
            final(self).instruction == old(self).instruction,
            final(self).delay_state == old(self).delay_state,
            final(self).delay_pc == old(self).delay_pc,
            final(self).exception_pending == old(self).exception_pending,
    {
        self.reg[0] = 0;
        self.pc = 0xbfc0_0000;
        self.cpzero.reset();
    }

    /// Enters the exception handler for `code`.
    ///
    /// An instruction bus error or a `break` halts the machine instead,
    /// leaving the processor unchanged. For every other cause, CP0 records
    /// the fault and the program counter moves to the handler vector, with
    /// the pending flag set so that the step's ordinary program-counter
    /// update is suppressed.
    pub fn exception(&mut self, code: ExceptionCode) -> (r: Result<(), RmipsError>)
        requires
            old(self).wf(),
        ensures
            final(self).wf(),
            match code {
                ExceptionCode::InstructionBusError | ExceptionCode::Break => r == Err::<
                    (),
                    RmipsError,
                >(RmipsError::Halt) && *final(self) == *old(self),
                _ => r is Ok && exception_entry_post(*old(self), *final(self), code),
            },
    {
        match code {
            ExceptionCode::InstructionBusError => {
                return Err(RmipsError::Halt);
            },
            ExceptionCode::Break => {
                return Err(RmipsError::Halt);
            },
            _ => {},
        }

        let delayslot = self.delay_state == DelayState::Delayslot;
        self.cpzero.exception(self.pc, code, delayslot);

        // The handler base is selected by the BEV bit: the ROM (kseg1)
        // entry point at boot, the RAM entry point once the guest has
        // installed its own handlers.
        let base: Address = if self.cpzero.boot_exception_vector_enabled() {
            0xbfc0_0100
        } else {
            0x8000_0000
        };

        // A TLB miss from user space enters the dedicated user-miss vector;
        // everything else enters the common vector.
        let is_tlb_miss = matches!(
            code,
            ExceptionCode::TLBLoadMiss | ExceptionCode::TLBStoreMiss
        );
        let vector: Address = if is_tlb_miss && self.cpzero.tlb_miss_user {
            0x000
        } else {
            0x080
        };

        self.pc = base + vector;
        self.exception_pending = true;
        proof {
            lemma_status_push_preserves_bev(old(self).cpzero.status.bits);
        }
        Ok(())
    }

    /// Raises `CoprocessorUnusable` for an operation addressed at the
    /// disabled coprocessor `coprocno`, recording that number in Cause.CE.
    pub fn coprocessor_unimpl(&mut self, coprocno: u32, _instr: Instruction) -> (r: Result<
        (),
        RmipsError,
    >)
        requires
            old(self).wf(),
            1 <= coprocno < 4,
        ensures
            final(self).wf(),
            r is Ok,
            final(self).cpzero.cause.bits == crate::bits::spec_set_field(
                spec_cause_entry(
                    ExceptionCode::CoprocessorUnusable,
                    old(self).delay_state == DelayState::Delayslot,
                ),
                28,
                2,
                coprocno,
            ),
            final(self).exception_pending,
            final(self).pc == spec_exception_vector(
                old(self).cpzero.status.spec_bootstrap_mode(),
                ExceptionCode::CoprocessorUnusable,
                old(self).cpzero.tlb_miss_user,
            ),
            final(self).cpzero.status.bits == spec_status_push(old(self).cpzero.status.bits),
            final(self).cpzero.epc.address == if old(self).delay_state == DelayState::Delayslot {
                old(self).pc.wrapping_sub(4)
            } else {
                old(self).pc
            },
            final(self).reg == old(self).reg,
            final(self).high == old(self).high,
            final(self).low == old(self).low,
            final(self).delay_state == old(self).delay_state,
            final(self).delay_pc == old(self).delay_pc,
            final(self).instruction == old(self).instruction,
    {
        let r = self.exception(ExceptionCode::CoprocessorUnusable);
        self.cpzero.cause.set_coprocessor_error(coprocno);
        r
    }

    /// Dispatches one decoded instruction to its execute routine.
    ///
    /// The contract is [`op_post`]: the exact per-opcode relation between
    /// the machine before and after the routine ran.
    fn execute(&mut self, memory: &mut Monitor, instr: Instruction) -> (r: Result<(), RmipsError>)
        requires
            old(self).wf(),
            old(memory).wf(),
        ensures
            final(self).wf(),
            final(memory).wf(),
            op_post(*old(self), *old(memory), instr, *final(self), *final(memory), r),
            final(memory).watchpoints == old(memory).watchpoints,
            final(memory).bus.ranges_match(old(memory).bus),
            r is Err ==> final(self).gpr(0) == old(self).gpr(0),
            !final(self).exception_pending ==> final(self).pc == old(self).pc,
            final(self).exception_pending && !old(self).exception_pending ==> final(self).delay_state == old(self).delay_state && final(self).delay_pc == old(self).delay_pc,
            !final(self).exception_pending ==> (final(self).delay_state == old(self).delay_state
                && final(self).delay_pc == old(self).delay_pc) || final(self).delay_state
                == DelayState::Delaying,
    {
        proof {
            reveal(crate::instructions::op_post);
        }
        match instr.opcode() {
            0x00 => match instr.funct() {
                0x00 => self.sll_emulate(instr),
                0x02 => self.srl_emulate(instr),
                0x03 => self.sra_emulate(instr),
                0x04 => self.sllv_emulate(instr),
                0x06 => self.srlv_emulate(instr),
                0x07 => self.srav_emulate(instr),
                0x08 => self.jr_emulate(instr),
                0x09 => self.jalr_emulate(instr),
                0x0c => self.syscall_emulate()?,
                0x0d => self.break_emulate()?,
                0x10 => self.mfhi_emulate(instr),
                0x11 => self.mthi_emulate(instr),
                0x12 => self.mflo_emulate(instr),
                0x13 => self.mtlo_emulate(instr),
                0x18 => self.mult_emulate(instr),
                0x19 => self.multu_emulate(instr),
                0x1a => self.div_emulate(instr),
                0x1b => self.divu_emulate(instr),
                0x20 => self.add_emulate(instr)?,
                0x21 => self.addu_emulate(instr),
                0x22 => self.sub_emulate(instr)?,
                0x23 => self.subu_emulate(instr),
                0x24 => self.and_emulate(instr),
                0x25 => self.or_emulate(instr),
                0x26 => self.xor_emulate(instr),
                0x27 => self.nor_emulate(instr),
                0x2a => self.slt_emulate(instr),
                0x2b => self.sltu_emulate(instr),
                _ => self.ri_emulate()?,
            },
            0x01 => match instr.rt() {
                0 => self.bltz_emulate(instr),
                1 => self.bgez_emulate(instr),
                16 => self.bltzal_emulate(instr),
                17 => self.bgezal_emulate(instr),
                _ => self.ri_emulate()?,
            },
            0x02 => self.j_emulate(instr),
            0x03 => self.jal_emulate(instr),
            0x04 => self.beq_emulate(instr),
            0x05 => self.bne_emulate(instr),
            0x06 => self.blez_emulate(instr),
            0x07 => self.bgtz_emulate(instr),
            0x08 => self.addi_emulate(instr)?,
            0x09 => self.addiu_emulate(instr),
            0x0a => self.slti_emulate(instr),
            0x0b => self.sltiu_emulate(instr),
            0x0c => self.andi_emulate(instr),
            0x0d => self.ori_emulate(instr),
            0x0e => self.xori_emulate(instr),
            0x0f => self.lui_emulate(instr),
            0x10 => {
                // System control coprocessor operations.
                let rs = instr.rs();
                if 15 < rs {
                    match instr.funct() {
                        1 => self.cpzero.tlbr_emulate(),
                        2 => self.cpzero.tlbwi_emulate(),
                        6 => self.cpzero.tlbwr_emulate(),
                        8 => self.cpzero.tlbp_emulate(),
                        16 => self.cpzero.rfe_emulate(),
                        _ => self.ri_emulate()?,
                    }
                } else {
                    match rs {
                        0 => self.mfc0_emulate(instr),
                        4 => self.mtc0_emulate(instr),
                        // The branch-on-CP0-condition pair has no condition
                        // source in this core.
                        _ => self.ri_emulate()?,
                    }
                }
            },
            0x11 => self.coprocessor_unimpl(1, instr)?,
            0x12 => self.coprocessor_unimpl(2, instr)?,
            0x13 => self.coprocessor_unimpl(3, instr)?,
            0x20 => self.lb_emulate(memory, instr)?,
            0x21 => self.lh_emulate(memory, instr)?,
            0x22 => self.lwl_emulate()?,
            0x23 => self.lw_emulate(memory, instr)?,
            0x24 => self.lbu_emulate(memory, instr)?,
            0x25 => self.lhu_emulate(memory, instr)?,
            0x26 => self.lwr_emulate()?,
            0x28 => self.sb_emulate(memory, instr)?,
            0x29 => self.sh_emulate(memory, instr)?,
            0x2a => self.swl_emulate()?,
            0x2b => self.sw_emulate(memory, instr)?,
            0x2e => self.swr_emulate()?,
            0x31 => self.lwc1_emulate(instr)?,
            0x32 => self.lwc2_emulate(instr)?,
            0x33 => self.lwc3_emulate(instr)?,
            0x38 => self.swc1_emulate(instr)?,
            0x39 => self.swc2_emulate(instr)?,
            0x3a => self.swc3_emulate(instr)?,
            _ => self.ri_emulate()?,
        }
        Ok(())
    }

    /// Executes one instruction: translates and fetches the word at the
    /// program counter, dispatches to the per-opcode routine, re-zeroes
    /// register 0, and applies the branch-delay discipline to the program
    /// counter.
    ///
    /// The contract is [`step_post`]: the fetch outcome decides between an
    /// address error, a fatal instruction bus error, and the per-opcode
    /// relation [`op_post`] followed by the common tail [`step_tail`]. After
    /// every step register 0 reads as zero; when an exception was entered,
    /// the program counter holds the handler vector and the delay discipline
    /// restarts; otherwise the counter advances linearly, moving through
    /// `Delayslot` one step after a taken branch and landing on the saved
    /// target the step after that.
    #[verifier::rlimit(100)]
    pub fn step(&mut self, memory: &mut Monitor) -> (r: Result<(), RmipsError>)
        requires
            old(self).wf(),
            old(self).gpr(0) == 0,
            old(memory).wf(),
        ensures
            final(self).wf(),
            final(memory).wf(),
            final(self).gpr(0) == 0,
            final(memory).watchpoints == old(memory).watchpoints,
            final(memory).bus.ranges_match(old(memory).bus),
            step_post(*old(self), *old(memory), *final(self), *final(memory), r),
            r is Ok && final(self).exception_pending ==> final(self).delay_state
                == DelayState::Normal,
            r is Ok && !final(self).exception_pending ==> {
                &&& old(self).delay_state == DelayState::Normal ==> final(self).pc == old(self).pc.wrapping_add(4) && (final(self).delay_state == DelayState::Normal || final(self).delay_state == DelayState::Delayslot)
                &&& old(self).delay_state == DelayState::Delaying ==> final(self).pc == old(self).pc.wrapping_add(4) && final(self).delay_state == DelayState::Delayslot
                &&& old(self).delay_state == DelayState::Delayslot ==> (final(self).delay_state
                    == DelayState::Normal && final(self).pc == old(self).delay_pc && final(self).delay_pc == old(self).delay_pc) || (final(self).delay_state
                    == DelayState::Delayslot && final(self).pc == old(self).pc.wrapping_add(4))
            },
    {
        self.exception_pending = false;

        // Physical address of the next instruction.
        let phys_pc = self.cpzero.translate(self.pc);

        let res: Result<(), RmipsError> = if phys_pc == 0xffff_ffff {
            // The program counter points into kernel space while the
            // processor is in user mode: an address error, not a fetch.
            match self.exception(ExceptionCode::LoadAddressError) {
                Ok(_) => (),
                Err(e) => {
                    return Err(e);
                },
            }
            proof {
                assert(exception_entry_post(
                    Cpu { exception_pending: false, ..*old(self) },
                    *self,
                    ExceptionCode::LoadAddressError,
                ));
            }
            Ok(())
        } else {
            // Fetch the next instruction from memory. A fetch the bus cannot
            // serve is an instruction bus error, which halts the machine.
            let w = match memory.fetch_word(phys_pc) {
                Ok(w) => w,
                Err(_) => {
                    let halted = self.exception(ExceptionCode::InstructionBusError);
                    proof {
                        assert(*self == (Cpu { exception_pending: false, ..*old(self) }));
                    }
                    return halted;
                },
            };
            self.instruction = Instruction(w);
            let instr = self.instruction;

            // Decode and execute.
            let executed = self.execute(memory, instr);
            proof {
                let physg: u32 = old(self).cpzero.spec_translate(old(self).pc);
                let wg: u32 = old(memory).bus.spec_fetch_word(physg)->Ok_0;
                assert(wg == w);
                assert(op_post(
                    Cpu {
                        instruction: Instruction(wg),
                        ..(Cpu { exception_pending: false, ..*old(self) })
                    },
                    Monitor {
                        hit: recorded(
                            old(memory).watchpoints@,
                            old(memory).hit,
                            true,
                            Access { kind: AccessKind::Read, address: physg, data: wg, len: 4 },
                        ),
                        ..*old(memory)
                    },
                    Instruction(wg),
                    *self,
                    *memory,
                    executed,
                ));
            }
            if executed.is_err() {
                proof {
                    lemma_step_post_fetched(
                        *old(self),
                        *old(memory),
                        *self,
                        *memory,
                        *self,
                        executed,
                    );
                }
                return executed;
            }
            executed
        };

        let ghost mid = *self;

        // Register 0 is hardwired to zero: instructions may write it, and
        // the result is discarded here.
        self.reg[0] = 0;

        // When an exception was entered this step, the program counter is
        // already the handler vector and stays; the handler's first
        // instruction is never in a delay slot.
        if self.exception_pending {
            self.delay_state = DelayState::Normal;
            proof {
                assert(step_tail(mid, *self));
                if old(self).cpzero.spec_translate(old(self).pc)
                    == crate::cpzero::spec_translate_sentinel() {
                    lemma_step_post_sentinel(*old(self), *old(memory), mid, *self);
                } else {
                    lemma_step_post_fetched(*old(self), *old(memory), mid, *memory, *self, res);
                }
            }
            return res;
        }

        // Ordinary program counter update under the delay discipline.
        match self.delay_state {
            DelayState::Normal => {
                self.pc = self.pc.wrapping_add(4);
            },
            DelayState::Delaying => {
                self.pc = self.pc.wrapping_add(4);
                self.delay_state = DelayState::Delayslot;
            },
            DelayState::Delayslot => {
                self.pc = self.delay_pc;
                self.delay_state = DelayState::Normal;
            },
        }

        proof {
            assert(step_tail(mid, *self));
            if old(self).cpzero.spec_translate(old(self).pc)
                == crate::cpzero::spec_translate_sentinel() {
                lemma_step_post_sentinel(*old(self), *old(memory), mid, *self);
            } else {
                lemma_step_post_fetched(*old(self), *old(memory), mid, *memory, *self, res);
            }
        }
        res
    }
}


/// The common tail of a step, from the state `mid` that the executed
/// instruction left to the step's final state: register 0 is re-zeroed and
/// the program counter advances under the delay discipline, unless an
/// exception was entered, in which case the counter already holds the
/// handler vector and the delay discipline restarts.
pub open spec fn step_tail(mid: Cpu, post: Cpu) -> bool {
    &&& post.reg@ == mid.reg@.update(0, 0u32)
    &&& post.instruction == mid.instruction
    &&& post.high == mid.high
    &&& post.low == mid.low
    &&& post.cpzero == mid.cpzero
    &&& post.exception_pending == mid.exception_pending
    &&& post.delay_pc == mid.delay_pc
    &&& if mid.exception_pending {
        post.delay_state == DelayState::Normal && post.pc == mid.pc
    } else {
        match mid.delay_state {
            DelayState::Normal => post.delay_state == DelayState::Normal && post.pc
                == mid.pc.wrapping_add(4),
            DelayState::Delaying => post.delay_state == DelayState::Delayslot && post.pc
                == mid.pc.wrapping_add(4),
            DelayState::Delayslot => post.delay_state == DelayState::Normal && post.pc
                == mid.delay_pc,
        }
    }
}

/// The exact relation between the machine before and after one full step.
///
/// A program counter that translates to the sentinel enters the address
/// error handler without touching memory. A fetch the bus refuses halts the
/// machine, changing nothing but the cleared pending flag. Otherwise the
/// fetched word is executed under [`op_post`]: a routine error propagates
/// with the machine as the routine left it, and on success the common tail
/// [`step_tail`] re-zeroes register 0 and advances the program counter.
pub open spec fn step_post(
    pre: Cpu,
    mpre: Monitor,
    post: Cpu,
    mpost: Monitor,
    r: Result<(), RmipsError>,
) -> bool {
    let pre1 = Cpu { exception_pending: false, ..pre };
    let phys = pre.cpzero.spec_translate(pre.pc);
    if phys == crate::cpzero::spec_translate_sentinel() {
        &&& r is Ok
        &&& mpost == mpre
        &&& exists|mid: Cpu|
            {
                &&& #[trigger] exception_entry_post(pre1, mid, ExceptionCode::LoadAddressError)
                &&& step_tail(mid, post)
            }
    } else {
        match mpre.bus.spec_fetch_word(phys) {
            Err(_) => {
                &&& r == Err::<(), RmipsError>(RmipsError::Halt)
                &&& post == pre1
                &&& mpost == mpre
            },
            Ok(w) => {
                let pre2 = Cpu { instruction: Instruction(w), ..pre1 };
                let mfetched = Monitor {
                    hit: recorded(
                        mpre.watchpoints@,
                        mpre.hit,
                        true,
                        Access { kind: AccessKind::Read, address: phys, data: w, len: 4 },
                    ),
                    ..mpre
                };
                exists|mid: Cpu, mmid: Monitor|
                    {
                        &&& #[trigger] op_post(pre2, mfetched, Instruction(w), mid, mmid, r)
                        &&& mpost == mmid
                        &&& if r is Ok {
                            step_tail(mid, post)
                        } else {
                            post == mid
                        }
                    }
            },
        }
    }
}

/// Composes [`step_post`] for a step whose program counter translated to
/// the sentinel: the address-error entry left the machine in `mid`, and the
/// tail took it to `post`.
proof fn lemma_step_post_sentinel(pre: Cpu, mpre: Monitor, mid: Cpu, post: Cpu)
    requires
        pre.cpzero.spec_translate(pre.pc) == crate::cpzero::spec_translate_sentinel(),
        exception_entry_post(
            Cpu { exception_pending: false, ..pre },
            mid,
            ExceptionCode::LoadAddressError,
        ),
        step_tail(mid, post),
    ensures
        step_post(pre, mpre, post, mpre, Ok(())),
{
    let pre1 = Cpu { exception_pending: false, ..pre };
    assert(exception_entry_post(pre1, mid, ExceptionCode::LoadAddressError) && step_tail(
        mid,
        post,
    ));
}

/// Composes [`step_post`] for a step whose instruction word was fetched:
/// the executed routine left the machine in `mid`/`mmid` under [`op_post`],
/// and either the routine's error propagated or the tail took the processor
/// to `post`.
proof fn lemma_step_post_fetched(
    pre: Cpu,
    mpre: Monitor,
    mid: Cpu,
    mmid: Monitor,
    post: Cpu,
    r: Result<(), RmipsError>,
)
    requires
        pre.cpzero.spec_translate(pre.pc) != crate::cpzero::spec_translate_sentinel(),
        mpre.bus.spec_fetch_word(pre.cpzero.spec_translate(pre.pc)) is Ok,
        ({
            let phys = pre.cpzero.spec_translate(pre.pc);
            let w = mpre.bus.spec_fetch_word(phys)->Ok_0;
            op_post(
                Cpu {
                    instruction: Instruction(w),
                    ..(Cpu { exception_pending: false, ..pre })
                },
                Monitor {
                    hit: recorded(
                        mpre.watchpoints@,
                        mpre.hit,
                        true,
                        Access { kind: AccessKind::Read, address: phys, data: w, len: 4 },
                    ),
                    ..mpre
                },
                Instruction(w),
                mid,
                mmid,
                r,
            )
        }),
        r is Ok ==> step_tail(mid, post),
        r is Err ==> post == mid,
    ensures
        step_post(pre, mpre, post, mmid, r),
{
    let pre1 = Cpu { exception_pending: false, ..pre };
    let phys = pre.cpzero.spec_translate(pre.pc);
    let w = mpre.bus.spec_fetch_word(phys)->Ok_0;
    let pre2 = Cpu { instruction: Instruction(w), ..pre1 };
    let mfetched = Monitor {
        hit: recorded(
            mpre.watchpoints@,
            mpre.hit,
            true,
            Access { kind: AccessKind::Read, address: phys, data: w, len: 4 },
        ),
        ..mpre
    };
    assert(op_post(pre2, mfetched, Instruction(w), mid, mmid, r) && mmid == mmid && if r is Ok {
        step_tail(mid, post)
    } else {
        post == mid
    });
}


/// A watched store is observed across a whole step: when the fetched word is
/// a `sw` whose aligned virtual address translates to the watched address
/// `a` and the owning device accepts the write, the step succeeds without an
/// exception and leaves that write recorded as the monitor's hit — which the
/// emulator shell classifies as `WatchWrite(a)`.
pub proof fn lemma_step_post_watched_store(
    pre: Cpu,
    mpre: Monitor,
    post: Cpu,
    mpost: Monitor,
    r: Result<(), RmipsError>,
    a: Address,
)
    requires
        step_post(pre, mpre, post, mpost, r),
        pre.cpzero.spec_translate(pre.pc) != crate::cpzero::spec_translate_sentinel(),
        mpre.bus.spec_fetch_word(pre.cpzero.spec_translate(pre.pc)) is Ok,
        ({
            let w = mpre.bus.spec_fetch_word(pre.cpzero.spec_translate(pre.pc))->Ok_0;
            let vaddr = crate::instructions::spec_eaddr(
                pre.gpr(crate::instruction::spec_rs(w)),
                w,
            );
            &&& crate::instruction::spec_opcode(w) == 0x2b
            &&& vaddr % 4 == 0
            &&& pre.cpzero.spec_translate(vaddr) == a
            &&& match mpre.bus.spec_find(a) {
                Some(i) => mpre.bus.devices@[i].1.spec_write_word_result(
                    (a - mpre.bus.devices@[i].0.base) as u64,
                    pre.gpr(crate::instruction::spec_rt(w)),
                ) is Ok,
                None => false,
            }
        }),
        mpre.watchpoints@.contains(a),
    ensures
        r is Ok,
        !post.exception_pending,
        ({
            let w = mpre.bus.spec_fetch_word(pre.cpzero.spec_translate(pre.pc))->Ok_0;
            mpost.hit == Some(
                Access {
                    kind: AccessKind::Write,
                    address: a,
                    data: pre.gpr(crate::instruction::spec_rt(w)),
                    len: 4,
                },
            )
        }),
{
    reveal(crate::instructions::op_post);
    let phys = pre.cpzero.spec_translate(pre.pc);
    let w = mpre.bus.spec_fetch_word(phys)->Ok_0;
    let pre1 = Cpu { exception_pending: false, ..pre };
    let pre2 = Cpu { instruction: Instruction(w), ..pre1 };
    let mfetched = Monitor {
        hit: recorded(
            mpre.watchpoints@,
            mpre.hit,
            true,
            Access { kind: AccessKind::Read, address: phys, data: w, len: 4 },
        ),
        ..mpre
    };
    let (mid, mmid): (Cpu, Monitor) = choose|mid: Cpu, mmid: Monitor|
        {
            &&& #[trigger] op_post(pre2, mfetched, Instruction(w), mid, mmid, r)
            &&& mpost == mmid
            &&& if r is Ok {
                step_tail(mid, post)
            } else {
                post == mid
            }
        };
    assert(op_post(pre2, mfetched, Instruction(w), mid, mmid, r));
    let data = pre2.gpr(crate::instruction::spec_rt(w));
    assert(crate::memory::bus::store_word_post(mfetched.bus, mmid.bus, a, data, r));
    assert(r is Ok);
    assert(mmid.hit == recorded(
        mfetched.watchpoints@,
        mfetched.hit,
        true,
        Access { kind: AccessKind::Write, address: a, data, len: 4 },
    ));
    assert(step_tail(mid, post));
    assert(mid == pre2);
}

/// Pushing the KU/IE stack leaves the BEV bit alone.
proof fn lemma_status_push_preserves_bev(sb: u32)
    by (bit_vector)
    ensures
        spec_get_bit(spec_status_push(sb), 22) == spec_get_bit(sb, 22),
{
}

} // verus!
