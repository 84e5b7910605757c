//! A second pass over the execute routines, addressing registers through
//! the named constants.

use rmips::constants::REG_A0;
use rmips::cpu::{Cpu, DelayState};
use rmips::exception::ExceptionCode;
use rmips::instruction::Instruction;

#[test]
fn test_sll_emulate() {
    let mut cpu = Cpu::new();
    let instr = Instruction(0x00052140);
    cpu.reg[instr.rt()] = 42;
    cpu.sll_emulate(instr);
    assert_eq!(cpu.reg[REG_A0], 0x540);
}

#[test]
fn test_srl_emulate() {
    let mut cpu = Cpu::new();
    let instr = Instruction(0x00052142);
    cpu.reg[instr.rt()] = 42;
    cpu.srl_emulate(instr);
    assert_eq!(cpu.reg[REG_A0], 1);
}

#[test]
fn test_srlv_emulate() {
    let mut cpu = Cpu::new();
    let instr = Instruction(0x00a42006);
    cpu.reg[instr.rt()] = 0xffff;
    cpu.reg[instr.rs()] = 1;
    cpu.srlv_emulate(instr);
    assert_eq!(cpu.reg[REG_A0], 0x7fff);
}

#[test]
fn test_sra_emulate() {}

#[test]
fn test_sllv_emulate() {}

#[test]
fn test_srav_emulate() {}

#[test]
fn test_jr_emulate() {}

#[test]
fn test_jalr_emulate() {
    let mut cpu = Cpu::new();
    let instr = Instruction(0x0040f809);
    cpu.pc = 0xbfc019b0;

    cpu.reg[instr.rs()] = 0xbfc019b8;
    cpu.jalr_emulate(instr);

    assert_eq!(cpu.delay_pc, 0xbfc019b8);
    assert_eq!(cpu.delay_state, DelayState::Delaying);
}

#[test]
fn test_syscall_emulate() {}

#[test]
fn test_break_emulate() {}

#[test]
fn test_mfhi_emulate() {}

#[test]
fn test_mthi_emulate() {}

#[test]
fn test_mflo_emulate() {}

#[test]
fn test_mtlo_emulate() {}

#[test]
fn test_mult_emulate() {}

#[test]
fn test_multu_emulate() {}

#[test]
fn test_div_emulate() {}

#[test]
fn test_divu_emulate() {}

#[test]
fn test_add_emulate() {
    let mut cpu = Cpu::new();
    let instr = Instruction(0x00a62020);
    cpu.reg[instr.rt()] = 0xffff_0fff;
    cpu.reg[instr.rs()] = 0x0001_0000;
    cpu.add_emulate(instr).unwrap();
    assert_eq!(cpu.reg[REG_A0], 0x0000_0fff);
}

#[test]
fn test_add_emulate_exception() {
    // An overflow exception is triggered by `add` on signed overflow.
    let mut cpu = Cpu::new();
    cpu.reset();
    let instr = Instruction(0x00a62020);
    cpu.reg[instr.rs()] = 0x4000_0000;
    cpu.reg[instr.rt()] = 0x4000_0000;
    assert!(cpu.add_emulate(instr).is_ok());
    assert!(cpu.exception_pending);
    assert!(matches!(
        cpu.cpzero.cause.get_exception_code(),
        ExceptionCode::Overflow
    ));
    assert_eq!(cpu.reg[instr.rd()], 0);
}

#[test]
fn test_addu_emulate() {
    let mut cpu = Cpu::new();
    let instr = Instruction(0x00a62021);
    cpu.reg[instr.rt()] = 0xffff_0fff;
    cpu.reg[instr.rs()] = 0x0001_0000;
    cpu.addu_emulate(instr);
    assert_eq!(cpu.reg[REG_A0], 0x0000_0fff);
}

#[test]
fn test_sub_emulate() {
    let mut cpu = Cpu::new();
    let instr = Instruction(0x00a62022);
    cpu.reg[instr.rt()] = 40;
    cpu.reg[instr.rs()] = 42;
    cpu.sub_emulate(instr).unwrap();
    assert_eq!(cpu.reg[REG_A0], 2);
}

#[test]
fn test_sub_emulate_exception() {
    // An overflow exception is triggered by `sub` on signed overflow.
    let mut cpu = Cpu::new();
    cpu.reset();
    let instr = Instruction(0x00a62022);
    cpu.reg[instr.rs()] = 0x7fff_ffff;
    cpu.reg[instr.rt()] = 0xffff_ffff;
    assert!(cpu.sub_emulate(instr).is_ok());
    assert!(cpu.exception_pending);
    assert!(matches!(
        cpu.cpzero.cause.get_exception_code(),
        ExceptionCode::Overflow
    ));
    assert_eq!(cpu.reg[instr.rd()], 0);
}

#[test]
fn test_subu_emulate() {
    let mut cpu = Cpu::new();
    let instr = Instruction(0x00a62023);
    cpu.reg[instr.rt()] = 1;
    cpu.reg[instr.rs()] = 0;
    cpu.subu_emulate(instr);
    assert_eq!(cpu.reg[REG_A0], 0xffff_ffff);
}

#[test]
fn test_and_emulate() {
    let mut cpu = Cpu::new();
    let instr = Instruction(0x00852024);
    cpu.reg[instr.rt()] = 42;
    cpu.reg[instr.rs()] = 13;
    cpu.and_emulate(instr);
    assert_eq!(cpu.reg[REG_A0], 8);
}

#[test]
fn test_or_emulate() {
    let mut cpu = Cpu::new();
    let instr = Instruction(0x00852024);
    cpu.reg[instr.rt()] = 42;
    cpu.reg[instr.rs()] = 13;
    cpu.or_emulate(instr);
    assert_eq!(cpu.reg[REG_A0], 0x2f);
}

#[test]
fn test_xor_emulate() {
    let mut cpu = Cpu::new();
    let instr = Instruction(0x00a62026);
    cpu.reg[instr.rt()] = 4242;
    cpu.reg[instr.rs()] = 88;
    cpu.xor_emulate(instr);
    assert_eq!(cpu.reg[REG_A0], 0x10ca);
}

#[test]
fn test_nor_emulate() {
    let mut cpu = Cpu::new();
    let instr = Instruction(0x00852027);
    cpu.reg[instr.rt()] = 42;
    cpu.reg[instr.rs()] = 13;
    cpu.nor_emulate(instr);
    assert_eq!(cpu.reg[REG_A0], 0xffff_ffd0);
}

#[test]
fn test_slt_emulate() {}

#[test]
fn test_slti_emulate() {}

#[test]
fn test_sltiu_emulate() {}

#[test]
fn test_sltu_emulate() {}

#[test]
fn test_bltz_emulate() {}

#[test]
fn test_bgez_emulate() {}

#[test]
fn test_bltzal_emulate() {}

#[test]
fn test_bgezal_emulate() {}

#[test]
fn test_beq_emulate_branches() {
    let mut cpu = Cpu::new();
    let instr = Instruction(0x10530005);
    cpu.pc = 0xbfc006ec;

    cpu.reg[instr.rt()] = 42;
    cpu.reg[instr.rs()] = 42;
    cpu.beq_emulate(instr);

    assert_eq!(cpu.delay_pc, 0xbfc00704);
    assert_eq!(cpu.delay_state, DelayState::Delaying);
}

#[test]
fn test_beq_emulate_not_branches() {
    let mut cpu = Cpu::new();
    let instr = Instruction(0x10530005);
    cpu.pc = 0xbfc006ec;

    cpu.reg[instr.rt()] = 24;
    cpu.reg[instr.rs()] = 42;
    cpu.beq_emulate(instr);

    assert_eq!(cpu.delay_pc, 0);
    assert_eq!(cpu.delay_state, DelayState::Normal);
}

#[test]
fn test_bne_emulate_branches() {
    let mut cpu = Cpu::new();
    let instr = Instruction(0x10530005);
    cpu.pc = 0xbfc006ec;

    cpu.reg[instr.rt()] = 24;
    cpu.reg[instr.rs()] = 42;
    cpu.bne_emulate(instr);

    assert_eq!(cpu.delay_pc, 0xbfc00704);
    assert_eq!(cpu.delay_state, DelayState::Delaying);
}

#[test]
fn test_bne_emulate_not_branches() {
    let mut cpu = Cpu::new();
    let instr = Instruction(0x10530005);
    cpu.pc = 0xbfc006ec;

    cpu.reg[instr.rt()] = 42;
    cpu.reg[instr.rs()] = 42;
    cpu.bne_emulate(instr);

    assert_eq!(cpu.delay_pc, 0);
    assert_eq!(cpu.delay_state, DelayState::Normal);
}

#[test]
fn test_blez_emulate() {}

#[test]
fn test_bgtz_emulate() {}

#[test]
fn test_addi_emulate() {
    let mut cpu = Cpu::new();
    let instr = Instruction(0x20840080);
    cpu.reg[instr.rs()] = 42;
    cpu.addi_emulate(instr).unwrap();
    assert_eq!(cpu.reg[REG_A0], 0xaa);
}

#[test]
fn test_addi_emulate_exception() {
    // An overflow exception is triggered by `addi` on signed overflow.
    let mut cpu = Cpu::new();
    cpu.reset();
    let instr = Instruction(0x20840001);
    cpu.reg[instr.rs()] = 0x7fff_ffff;
    assert!(cpu.addi_emulate(instr).is_ok());
    assert!(cpu.exception_pending);
    assert!(matches!(
        cpu.cpzero.cause.get_exception_code(),
        ExceptionCode::Overflow
    ));
    // rs and rt name the same register here; it keeps its input value.
    assert_eq!(cpu.reg[instr.rt()], 0x7fff_ffff);
}

#[test]
fn test_addiu_emulate() {
    let mut cpu = Cpu::new();
    let instr = Instruction(0x248400ff);
    cpu.reg[instr.rs()] = 42;
    cpu.addiu_emulate(instr);
    assert_eq!(cpu.reg[REG_A0], 0x129);
}

#[test]
fn test_andi_emulate() {
    let mut cpu = Cpu::new();
    let instr = Instruction(0x30a40fff);
    cpu.reg[instr.rs()] = 0x0110;
    cpu.andi_emulate(instr);
    assert_eq!(cpu.reg[REG_A0], 0x0110);
}

#[test]
fn test_ori_emulate() {
    let mut cpu = Cpu::new();
    let instr = Instruction(0x34a41001);
    cpu.reg[instr.rs()] = 0x0110;
    cpu.ori_emulate(instr);
    assert_eq!(cpu.reg[REG_A0], 0x1111);
}

#[test]
fn test_xori_emulate() {
    let mut cpu = Cpu::new();
    let instr = Instruction(0x38a44321);
    cpu.reg[instr.rs()] = 0x1234;
    cpu.xori_emulate(instr);
    assert_eq!(cpu.reg[REG_A0], 0x5115);
}

#[test]
fn test_lui_emulate() {
    let mut cpu = Cpu::new();
    let instr = Instruction(0x3c040064);
    cpu.lui_emulate(instr);
    assert_eq!(cpu.reg[REG_A0], 0x0064_0000);
}

#[test]
fn test_lb_emulate() {}

#[test]
fn test_lh_emulate() {}

#[test]
fn test_lwl_emulate() {}

#[test]
fn test_lw_emulate() {}

#[test]
fn test_lbu_emulate() {}

#[test]
fn test_lhu_emulate() {}

#[test]
fn test_lwr_emulate() {}

#[test]
fn test_sb_emulate() {}

#[test]
fn test_sh_emulate() {}

#[test]
fn test_swl_emulate() {}

#[test]
fn test_sw_emulate() {}

#[test]
fn test_swr_emulate() {}

#[test]
fn test_lwc1_emulate() {}

#[test]
fn test_lwc2_emulate() {}

#[test]
fn test_lwc3_emulate() {}

#[test]
fn test_swc1_emulate() {}

#[test]
fn test_swc2_emulate() {}

#[test]
fn test_swc3_emulate() {}

#[test]
fn test_j_emulate() {
    let mut cpu = Cpu::new();
    cpu.pc = 0xbfc00000;
    cpu.j_emulate(Instruction(0xbf00100));
    assert_eq!(cpu.delay_pc, 0xbfc00400);
    assert_eq!(cpu.delay_state, DelayState::Delaying);
}

#[test]
fn test_jal_emulate() {}

#[test]
fn test_ri_emulate() {}
