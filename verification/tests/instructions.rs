//! Per-instruction behaviour of the execute routines.

use rmips::cpu::{Cpu, DelayState};
use rmips::instruction::Instruction;
use rmips::registers::Register;

#[test]
fn sll_emulate() {
    let mut cpu = Cpu::new();
    let instr = Instruction(0x00052140);
    cpu.reg[instr.rt()] = 42;
    cpu.sll_emulate(instr);
    assert_eq!(cpu.reg[instr.rd()], 0x540);
}

#[test]
fn srl_emulate() {
    let mut cpu = Cpu::new();
    let instr = Instruction(0x00052142);
    cpu.reg[instr.rt()] = 42;
    cpu.srl_emulate(instr);
    assert_eq!(cpu.reg[instr.rd()], 1);
}

#[test]
fn srlv_emulate() {
    let mut cpu = Cpu::new();
    let instr = Instruction(0x00a42006);
    cpu.reg[instr.rt()] = 0xffff;
    cpu.reg[instr.rs()] = 1;
    cpu.srlv_emulate(instr);
    assert_eq!(cpu.reg[instr.rd()], 0x7fff);
}

#[test]
fn sra_emulate() {}

#[test]
fn sllv_emulate() {}

#[test]
fn srav_emulate() {}

#[test]
fn jr_emulate() {}

#[test]
fn jalr_emulate() {
    let mut cpu = Cpu::new();
    cpu.pc = 0xbfc019b0;

    let instr = Instruction(0x0040f809);
    cpu.reg[instr.rs()] = 0xbfc019b8;
    cpu.jalr_emulate(instr);

    assert_eq!(cpu.delay_pc, 0xbfc019b8);
    assert_eq!(cpu.delay_state, DelayState::Delaying);
}

#[test]
fn syscall_emulate() {}

#[test]
fn break_emulate() {}

#[test]
fn mfhi_emulate() {
    let mut cpu = Cpu::new();
    let instr = Instruction(0x00004010);
    cpu.high = 0x4200ff00;
    cpu.mfhi_emulate(instr);
    assert_eq!(cpu.reg[instr.rd()], cpu.high);
}

#[test]
fn mthi_emulate() {
    let mut cpu = Cpu::new();
    let instr = Instruction(0x01000011);
    cpu.reg[instr.rs()] = 0x4200ff00;
    cpu.mthi_emulate(instr);
    assert_eq!(cpu.reg[instr.rs()], cpu.high);
}

#[test]
fn mflo_emulate() {
    let mut cpu = Cpu::new();
    let instr = Instruction(0x00004012);
    cpu.low = 0x4200ff00;
    cpu.mflo_emulate(instr);
    assert_eq!(cpu.reg[instr.rd()], cpu.low);
}

#[test]
fn mtlo_emulate() {
    let mut cpu = Cpu::new();
    let instr = Instruction(0x01000013);
    cpu.reg[instr.rs()] = 0x4200ff00;
    cpu.mtlo_emulate(instr);
    assert_eq!(cpu.reg[instr.rs()], cpu.low);
}

#[test]
fn mult_emulate() {
    let mut cpu = Cpu::new();
    let instr = Instruction(0x00850018);
    cpu.reg[instr.rt()] = 0xffffffff;
    cpu.reg[instr.rs()] = 0x7fffffff;
    cpu.mult_emulate(instr);
    // The product is signed: 0x7fffffff times -1.
    assert_eq!(cpu.low, 0x80000001);
    assert_eq!(cpu.high, 0xffffffff);
}

#[test]
fn multu_emulate() {
    let mut cpu = Cpu::new();
    let instr = Instruction(0x00850018);
    cpu.reg[instr.rt()] = 0xffffffff;
    cpu.reg[instr.rs()] = 0x7fffffff;
    cpu.multu_emulate(instr);
    assert_eq!(cpu.low, 0x80000001);
    assert_eq!(cpu.high, 0x7ffffffe);
}

#[test]
fn div_emulate_mod() {
    let mut cpu = Cpu::new();
    let instr = Instruction(0x0109001a);

    cpu.reg[instr.rs()] = 2;
    cpu.reg[instr.rt()] = 5;
    cpu.div_emulate(instr);

    assert_eq!(cpu.low, 0);
    assert_eq!(cpu.high, 2);
}

#[test]
fn div_emulate_divide() {
    let mut cpu = Cpu::new();
    let instr = Instruction(0x0109001a);

    cpu.reg[instr.rs()] = 5;
    cpu.reg[instr.rt()] = 2;
    cpu.div_emulate(instr);

    assert_eq!(cpu.low, 2);
    assert_eq!(cpu.high, 1);
}

#[test]
fn div_emulate_divide_negative() {
    let mut cpu = Cpu::new();
    let instr = Instruction(0x0109001a);

    cpu.reg[instr.rs()] = -16i32 as u32;
    cpu.reg[instr.rt()] = 4;
    cpu.div_emulate(instr);

    assert_eq!(cpu.low, 0xfffffffc);
    assert_eq!(cpu.high, 0);
}

#[test]
fn div_emulate_divide_by_zero() {
    let mut cpu = Cpu::new();
    let instr = Instruction(0x0109001a);

    cpu.reg[instr.rs()] = 5;
    cpu.reg[instr.rt()] = 0;
    cpu.div_emulate(instr);

    assert_eq!(cpu.low, 0);
    assert_eq!(cpu.high, 0);
}

#[test]
fn divu_emulate_mod() {
    let mut cpu = Cpu::new();
    let instr = Instruction(0x0109001b);

    cpu.reg[instr.rs()] = 2;
    cpu.reg[instr.rt()] = 5;
    cpu.divu_emulate(instr);

    assert_eq!(cpu.low, 0);
    assert_eq!(cpu.high, 2);
}

#[test]
fn divu_emulate_divide() {
    let mut cpu = Cpu::new();
    let instr = Instruction(0x0109001b);

    cpu.reg[instr.rs()] = 5;
    cpu.reg[instr.rt()] = 2;
    cpu.divu_emulate(instr);

    assert_eq!(cpu.low, 2);
    assert_eq!(cpu.high, 1);
}

#[test]
fn divu_emulate_divide_negative() {
    let mut cpu = Cpu::new();
    let instr = Instruction(0x0109001b);

    cpu.reg[instr.rs()] = -16i32 as u32;
    cpu.reg[instr.rt()] = 4;
    cpu.divu_emulate(instr);

    assert_eq!(cpu.low, 0x3ffffffc);
    assert_eq!(cpu.high, 0);
}

#[test]
fn divu_emulate_divide_by_zero() {
    let mut cpu = Cpu::new();
    let instr = Instruction(0x0109001b);

    cpu.reg[instr.rs()] = 5;
    cpu.reg[instr.rt()] = 0;
    cpu.divu_emulate(instr);

    assert_eq!(cpu.low, 0);
    assert_eq!(cpu.high, 0);
}

#[test]
fn add_emulate() {}

#[test]
fn add_emulate_exception() {
    // Signed overflow in `add` enters the Overflow exception and leaves the
    // destination register unchanged.
    let mut cpu = Cpu::new();
    cpu.reset();
    let instr = Instruction(0x00a62020);
    cpu.reg[instr.rs()] = 0x7fff_ffff;
    cpu.reg[instr.rt()] = 1;
    let r = cpu.add_emulate(instr);
    assert!(r.is_ok());
    assert!(cpu.exception_pending);
    assert_eq!(cpu.reg[instr.rd()], 0);
    assert!(matches!(
        cpu.cpzero.cause.get_exception_code(),
        rmips::exception::ExceptionCode::Overflow
    ));
}

#[test]
fn addu_emulate() {
    let mut cpu = Cpu::new();
    let instr = Instruction(0x00a62021);
    cpu.reg[instr.rt()] = 0xffff_0fff;
    cpu.reg[instr.rs()] = 0x0001_0000;
    cpu.addu_emulate(instr);
    assert_eq!(cpu.reg[instr.rd()], 0x0000_0fff);
}

#[test]
fn sub_emulate() {
    let mut cpu = Cpu::new();
    let instr = Instruction(0x00a62022);
    cpu.reg[instr.rt()] = 40;
    cpu.reg[instr.rs()] = 42;
    cpu.sub_emulate(instr).unwrap();
    assert_eq!(cpu.reg[instr.rd()], 2);
}

#[test]
fn sub_emulate_exception() {
    // Signed overflow in `sub` enters the Overflow exception and leaves the
    // destination register unchanged.
    let mut cpu = Cpu::new();
    cpu.reset();
    let instr = Instruction(0x00a62022);
    cpu.reg[instr.rs()] = 0x8000_0000;
    cpu.reg[instr.rt()] = 1;
    let r = cpu.sub_emulate(instr);
    assert!(r.is_ok());
    assert!(cpu.exception_pending);
    assert_eq!(cpu.reg[instr.rd()], 0);
    assert!(matches!(
        cpu.cpzero.cause.get_exception_code(),
        rmips::exception::ExceptionCode::Overflow
    ));
}

#[test]
fn subu_emulate() {
    let mut cpu = Cpu::new();
    let instr = Instruction(0x00a62023);
    cpu.reg[instr.rt()] = 1;
    cpu.reg[instr.rs()] = 0;
    cpu.subu_emulate(instr);
    assert_eq!(cpu.reg[instr.rd()], 0xffff_ffff);
}

#[test]
fn and_emulate() {
    let mut cpu = Cpu::new();
    let instr = Instruction(0x00852024);
    cpu.reg[instr.rt()] = 42;
    cpu.reg[instr.rs()] = 13;
    cpu.and_emulate(instr);
    assert_eq!(cpu.reg[instr.rd()], 8);
}

#[test]
fn or_emulate() {
    let mut cpu = Cpu::new();
    let instr = Instruction(0x00852024);
    cpu.reg[instr.rt()] = 42;
    cpu.reg[instr.rs()] = 13;
    cpu.or_emulate(instr);
    assert_eq!(cpu.reg[instr.rd()], 0x2f);
}

#[test]
fn xor_emulate() {
    let mut cpu = Cpu::new();
    let instr = Instruction(0x00a62026);
    cpu.reg[instr.rt()] = 4242;
    cpu.reg[instr.rs()] = 88;
    cpu.xor_emulate(instr);
    assert_eq!(cpu.reg[instr.rd()], 0x10ca);
}

#[test]
fn nor_emulate() {
    let mut cpu = Cpu::new();
    let instr = Instruction(0x00852027);
    cpu.reg[instr.rt()] = 42;
    cpu.reg[instr.rs()] = 13;
    cpu.nor_emulate(instr);
    assert_eq!(cpu.reg[instr.rd()], 0xffff_ffd0);
}

#[test]
fn slt_emulate_less_than() {
    let mut cpu = Cpu::new();
    let instr = Instruction(0x014b482a);
    cpu.reg[instr.rt()] = 0;
    cpu.reg[instr.rs()] = -1i32 as u32;
    cpu.slt_emulate(instr);
    assert_eq!(cpu.reg[instr.rd()], 1);
}

#[test]
fn slt_emulate_greater_than() {
    let mut cpu = Cpu::new();
    let instr = Instruction(0x014b482a);
    cpu.reg[instr.rt()] = 40;
    cpu.reg[instr.rs()] = 42;
    cpu.slt_emulate(instr);
    assert_eq!(cpu.reg[instr.rd()], 0);
}

#[test]
fn slti_emulate_less_than() {
    let mut cpu = Cpu::new();
    let instr = Instruction(0x2949ff9c);
    cpu.reg[instr.rs()] = -128i32 as u32;
    cpu.slti_emulate(instr);
    assert_eq!(cpu.reg[instr.rt()], 1);
}

#[test]
fn slti_emulate_greater_than() {
    let mut cpu = Cpu::new();
    let instr = Instruction(0x2949ff80);
    cpu.reg[instr.rs()] = -100i32 as u32;
    cpu.slti_emulate(instr);
    assert_eq!(cpu.reg[instr.rt()], 0);
}

#[test]
fn sltiu_emulate_less_than() {
    let mut cpu = Cpu::new();
    let instr = Instruction(0x2d49ffff);
    cpu.reg[instr.rs()] = 10;
    cpu.sltiu_emulate(instr);
    assert_eq!(cpu.reg[instr.rt()], 1);
}

#[test]
fn sltiu_emulate_greater_than() {
    let mut cpu = Cpu::new();
    let instr = Instruction(0x2949000a);
    cpu.reg[instr.rs()] = -1i32 as u32;
    cpu.sltiu_emulate(instr);
    assert_eq!(cpu.reg[instr.rt()], 0);
}

#[test]
fn sltu_emulate_less_than() {
    let mut cpu = Cpu::new();
    let instr = Instruction(0x00400004);
    cpu.reg[instr.rt()] = 13;
    cpu.reg[instr.rs()] = 12;
    cpu.sltu_emulate(instr);
    assert_eq!(cpu.reg[instr.rd()], 1);
}

#[test]
fn sltu_emulate_greater_than() {
    let mut cpu = Cpu::new();
    let instr = Instruction(0x00400004);
    cpu.reg[instr.rt()] = 0;
    cpu.reg[instr.rs()] = -1i32 as u32;
    cpu.sltu_emulate(instr);
    assert_eq!(cpu.reg[instr.rd()], 0);
}

#[test]
fn bltz_emulate_taken() {
    let mut cpu = Cpu::new();
    cpu.pc = 0xbfc00004;

    let instr = Instruction(0x05200004);
    cpu.reg[instr.rs()] = -101i32 as u32;
    cpu.bltz_emulate(instr);

    assert_eq!(cpu.delay_pc, 0xbfc00018);
    assert_eq!(cpu.delay_state, DelayState::Delaying);
}

#[test]
fn bltz_emulate_not_taken() {
    let mut cpu = Cpu::new();
    cpu.pc = 0xbfc00004;

    let instr = Instruction(0x05200004);
    cpu.reg[instr.rs()] = 101;
    cpu.bltz_emulate(instr);

    assert_eq!(cpu.delay_pc, 0);
    assert_eq!(cpu.delay_state, DelayState::Normal);
}

#[test]
fn bgez_emulate_taken_zero() {
    let mut cpu = Cpu::new();
    cpu.pc = 0xbfc00004;

    let instr = Instruction(0x05210004);
    cpu.reg[instr.rs()] = 0;
    cpu.bgez_emulate(instr);

    assert_eq!(cpu.delay_pc, 0xbfc00018);
    assert_eq!(cpu.delay_state, DelayState::Delaying);
}

#[test]
fn bgez_emulate_taken_greater_than_zero() {
    let mut cpu = Cpu::new();
    cpu.pc = 0xbfc00004;

    let instr = Instruction(0x05210004);
    cpu.reg[instr.rs()] = 100;
    cpu.bgez_emulate(instr);

    assert_eq!(cpu.delay_pc, 0xbfc00018);
    assert_eq!(cpu.delay_state, DelayState::Delaying);
}

#[test]
fn bgez_emulate_not_taken() {
    let mut cpu = Cpu::new();
    cpu.pc = 0xbfc00004;

    let instr = Instruction(0x05210004);
    cpu.reg[instr.rs()] = -101i32 as u32;
    cpu.bgez_emulate(instr);

    assert_eq!(cpu.delay_pc, 0);
    assert_eq!(cpu.delay_state, DelayState::Normal);
}

#[test]
fn bltzal_emulate_taken() {
    let mut cpu = Cpu::new();
    cpu.pc = 0xbfc00004;

    let instr = Instruction(0x05300004);
    cpu.reg[instr.rs()] = -101i32 as u32;
    cpu.bltzal_emulate(instr);

    assert_eq!(cpu.reg[Register::Ra.number()], 0xbfc0000c);
    assert_eq!(cpu.delay_pc, 0xbfc00018);
    assert_eq!(cpu.delay_state, DelayState::Delaying);
}

#[test]
fn bltzal_emulate_not_taken() {
    let mut cpu = Cpu::new();
    cpu.pc = 0xbfc00004;

    let instr = Instruction(0x05300004);
    cpu.reg[instr.rs()] = 0;
    cpu.bltzal_emulate(instr);

    assert_eq!(cpu.delay_pc, 0);
    assert_eq!(cpu.delay_state, DelayState::Normal);
}

#[test]
fn bgezal_emulate_taken_zero() {
    let mut cpu = Cpu::new();
    cpu.pc = 0xbfc00004;

    let instr = Instruction(0x05310004);
    cpu.reg[instr.rs()] = 0;
    cpu.bgezal_emulate(instr);

    assert_eq!(cpu.reg[Register::Ra.number()], 0xbfc0000c);
    assert_eq!(cpu.delay_pc, 0xbfc00018);
    assert_eq!(cpu.delay_state, DelayState::Delaying);
}

#[test]
fn bgezal_emulate_taken_greater_than_zero() {
    let mut cpu = Cpu::new();
    cpu.pc = 0xbfc00004;

    let instr = Instruction(0x05310004);
    cpu.reg[instr.rs()] = 100;
    cpu.bgezal_emulate(instr);

    assert_eq!(cpu.reg[Register::Ra.number()], 0xbfc0000c);
    assert_eq!(cpu.delay_pc, 0xbfc00018);
    assert_eq!(cpu.delay_state, DelayState::Delaying);
}

#[test]
fn bgezal_emulate_not_taken() {
    let mut cpu = Cpu::new();
    cpu.pc = 0xbfc00004;

    let instr = Instruction(0x05310004);
    cpu.reg[instr.rs()] = -101i32 as u32;
    cpu.bgezal_emulate(instr);

    assert_eq!(cpu.delay_pc, 0);
    assert_eq!(cpu.delay_state, DelayState::Normal);
}

#[test]
fn beq_emulate_taken() {
    let mut cpu = Cpu::new();
    cpu.pc = 0xbfc006ec;

    let instr = Instruction(0x10530005);
    cpu.reg[instr.rt()] = 42;
    cpu.reg[instr.rs()] = 42;
    cpu.beq_emulate(instr);

    assert_eq!(cpu.delay_pc, 0xbfc00704);
    assert_eq!(cpu.delay_state, DelayState::Delaying);
}

#[test]
fn beq_emulate_not_taken() {
    let mut cpu = Cpu::new();
    cpu.pc = 0xbfc006ec;

    let instr = Instruction(0x10530005);
    cpu.reg[instr.rt()] = 24;
    cpu.reg[instr.rs()] = 42;
    cpu.beq_emulate(instr);

    assert_eq!(cpu.delay_pc, 0);
    assert_eq!(cpu.delay_state, DelayState::Normal);
}

#[test]
fn bne_emulate_taken() {
    let mut cpu = Cpu::new();
    cpu.pc = 0xbfc006ec;

    let instr = Instruction(0x10530005);
    cpu.reg[instr.rt()] = 24;
    cpu.reg[instr.rs()] = 42;
    cpu.bne_emulate(instr);

    assert_eq!(cpu.delay_pc, 0xbfc00704);
    assert_eq!(cpu.delay_state, DelayState::Delaying);
}

#[test]
fn bne_emulate_not_taken() {
    let mut cpu = Cpu::new();
    cpu.pc = 0xbfc006ec;

    let instr = Instruction(0x10530005);
    cpu.reg[instr.rt()] = 42;
    cpu.reg[instr.rs()] = 42;
    cpu.bne_emulate(instr);

    assert_eq!(cpu.delay_pc, 0);
    assert_eq!(cpu.delay_state, DelayState::Normal);
}

#[test]
fn blez_emulate_taken() {
    let mut cpu = Cpu::new();
    cpu.pc = 0xbfc00004;

    let instr = Instruction(0x19200004);
    cpu.reg[instr.rs()] = 0;
    cpu.blez_emulate(instr);

    assert_eq!(cpu.delay_pc, 0xbfc00018);
    assert_eq!(cpu.delay_state, DelayState::Delaying);
}

#[test]
fn blez_emulate_taken_less_than_zero() {
    let mut cpu = Cpu::new();
    cpu.pc = 0xbfc00004;

    let instr = Instruction(0x19200004);
    cpu.reg[instr.rs()] = -101i32 as u32;
    cpu.blez_emulate(instr);

    assert_eq!(cpu.delay_pc, 0xbfc00018);
    assert_eq!(cpu.delay_state, DelayState::Delaying);
}

#[test]
fn blez_emulate_not_taken() {
    let mut cpu = Cpu::new();
    cpu.pc = 0xbfc00004;

    let instr = Instruction(0x19200004);
    cpu.reg[instr.rs()] = 100;
    cpu.blez_emulate(instr);

    assert_eq!(cpu.delay_pc, 0);
    assert_eq!(cpu.delay_state, DelayState::Normal);
}

#[test]
fn bgtz_emulate_taken() {
    let mut cpu = Cpu::new();
    cpu.pc = 0xbfc00004;

    let instr = Instruction(0x1d200004);
    cpu.reg[instr.rs()] = 42;
    cpu.bgtz_emulate(instr);

    assert_eq!(cpu.delay_pc, 0xbfc00018);
    assert_eq!(cpu.delay_state, DelayState::Delaying);
}

#[test]
fn bgtz_emulate_not_taken() {
    let mut cpu = Cpu::new();
    cpu.pc = 0xbfc00004;

    let instr = Instruction(0x1d200004);
    cpu.reg[instr.rs()] = 0;
    cpu.bgtz_emulate(instr);

    assert_eq!(cpu.delay_pc, 0);
    assert_eq!(cpu.delay_state, DelayState::Normal);
}

#[test]
fn addi_emulate() {
    let mut cpu = Cpu::new();
    let instr = Instruction(0x20840080);
    cpu.reg[instr.rs()] = 42;
    cpu.addi_emulate(instr).unwrap();
    assert_eq!(cpu.reg[rmips::constants::REG_A0], 0xaa);
}

#[test]
fn addi_emulate_exception() {
    // Signed overflow in `addi` enters the Overflow exception and leaves the
    // target register unchanged.
    let mut cpu = Cpu::new();
    cpu.reset();
    let instr = Instruction(0x20840001);
    cpu.reg[instr.rs()] = 0x7fff_ffff;
    let r = cpu.addi_emulate(instr);
    assert!(r.is_ok());
    assert!(cpu.exception_pending);
    // rs and rt name the same register here; it keeps its input value.
    assert_eq!(cpu.reg[instr.rt()], 0x7fff_ffff);
    assert!(matches!(
        cpu.cpzero.cause.get_exception_code(),
        rmips::exception::ExceptionCode::Overflow
    ));
}

#[test]
fn addiu_emulate() {
    let mut cpu = Cpu::new();
    let instr = Instruction(0x248400ff);
    cpu.reg[instr.rs()] = 42;
    cpu.addiu_emulate(instr);
    assert_eq!(cpu.reg[rmips::constants::REG_A0], 0x129);
}

#[test]
fn andi_emulate() {
    let mut cpu = Cpu::new();
    let instr = Instruction(0x30a40fff);
    cpu.reg[instr.rs()] = 0x0110;
    cpu.andi_emulate(instr);
    assert_eq!(cpu.reg[rmips::constants::REG_A0], 0x0110);
}

#[test]
fn ori_emulate() {
    let mut cpu = Cpu::new();
    let instr = Instruction(0x34a41001);
    cpu.reg[instr.rs()] = 0x0110;
    cpu.ori_emulate(instr);
    assert_eq!(cpu.reg[rmips::constants::REG_A0], 0x1111);
}

#[test]
fn xori_emulate() {
    let mut cpu = Cpu::new();
    let instr = Instruction(0x38a44321);
    cpu.reg[instr.rs()] = 0x1234;
    cpu.xori_emulate(instr);
    assert_eq!(cpu.reg[rmips::constants::REG_A0], 0x5115);
}

#[test]
fn lui_emulate() {
    let mut cpu = Cpu::new();
    let instr = Instruction(0x3c040064);
    cpu.lui_emulate(instr);
    assert_eq!(cpu.reg[rmips::constants::REG_A0], 0x0064_0000);
}

#[test]
fn lb_emulate() {}

#[test]
fn lh_emulate() {}

#[test]
fn lwl_emulate() {}

#[test]
fn lw_emulate() {}

#[test]
fn lbu_emulate() {}

#[test]
fn lhu_emulate() {}

#[test]
fn lwr_emulate() {}

#[test]
fn sb_emulate() {}

#[test]
fn sh_emulate() {}

#[test]
fn swl_emulate() {}

#[test]
fn sw_emulate() {}

#[test]
fn swr_emulate() {}

#[test]
fn lwc1_emulate() {}

#[test]
fn lwc2_emulate() {}

#[test]
fn lwc3_emulate() {}

#[test]
fn swc1_emulate() {}

#[test]
fn swc2_emulate() {}

#[test]
fn swc3_emulate() {}

#[test]
fn j_emulate() {
    let mut cpu = Cpu::new();
    let instr = Instruction(0xbf00100);

    cpu.reset();
    cpu.j_emulate(instr);

    assert_eq!(cpu.delay_pc, 0xbfc00400);
    assert_eq!(cpu.delay_state, DelayState::Delaying);
}

#[test]
fn jal_emulate() {
    let mut cpu = Cpu::new();
    let instr = Instruction(0x0c100006);

    cpu.pc = 0x00400000;
    cpu.jal_emulate(instr);

    assert_eq!(cpu.reg[Register::Ra.number()], 0x00400008);
    assert_eq!(cpu.delay_pc, 0x00400018);
    assert_eq!(cpu.delay_state, DelayState::Delaying);
}

#[test]
fn ri_emulate() {}
