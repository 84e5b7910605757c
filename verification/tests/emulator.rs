//! Whole-machine scenarios: exceptions, the delay slot, the halt device,
//! watchpoints and breakpoints.

use rmips::cpu::DelayState;
use rmips::emulator::Emulator;
use rmips::error::RmipsError;
use rmips::instruction::Instruction;
use rmips::memory::bus::Bus;
use rmips::memory::monitor::Monitor;
use rmips::memory::ram::Ram;
use rmips::opts::Opts;
use rmips::EmulationEvent;

/// Builds an emulator whose ROM holds the given words at the given word
/// offsets, zero (`nop`) elsewhere.
fn machine(rom_words: usize, words: &[(usize, u32)]) -> Emulator {
    let mut rom = vec![0u8; rom_words * 4];
    for (index, word) in words {
        let bytes = word.to_le_bytes();
        rom[index * 4..index * 4 + 4].copy_from_slice(&bytes);
    }
    Emulator::new(Opts::default(), rom).unwrap()
}

#[test]
fn emulator_reset_state() {
    let em = machine(1, &[]);
    assert_eq!(em.cpu.pc, 0xbfc00000);
    assert!(em.cpu.cpzero.boot_exception_vector_enabled());
    assert!(em.cpu.cpzero.kernel_mode());
    assert!(!em.cpu.cpzero.interrupts_enabled());
    assert_eq!(em.cpu.cpzero.random.get_value(), 63);
    assert_eq!(em.cpu.cpzero.prid.bits, 0x230);
}

#[test]
fn emulator_addi_overflow_scenario() {
    // addi with reg[rs] at the signed maximum: the Overflow exception is
    // entered, the target register is unchanged, and the program counter is
    // the bootstrap exception vector.
    let mut em = machine(2, &[(0, 0x20840001)]);
    em.cpu.reg[4] = 0x7fff_ffff;
    let ev = em.step().unwrap();
    assert_eq!(ev, EmulationEvent::Step);
    assert_eq!((em.cpu.cpzero.cause.bits >> 2) & 0x1f, 12);
    assert_eq!(em.cpu.reg[4], 0x7fff_ffff);
    assert_eq!(em.cpu.pc, 0xbfc00180);
}

#[test]
fn emulator_branch_delay_slot_scenario() {
    // beq with equal operands at 0xbfc006ec: the delay slot at +4 executes
    // first, and the branch lands at 0xbfc00704 after the second step.
    let mut em = machine(0x200, &[(0x6ec / 4, 0x10430005)]);
    em.cpu.pc = 0xbfc006ec;
    em.cpu.reg[2] = 42;
    em.cpu.reg[3] = 42;

    em.step().unwrap();
    assert_eq!(em.cpu.delay_state, DelayState::Delayslot);
    assert_eq!(em.cpu.delay_pc, 0xbfc00704);
    assert_eq!(em.cpu.pc, 0xbfc006f0);

    em.step().unwrap();
    assert_eq!(em.cpu.delay_state, DelayState::Normal);
    assert_eq!(em.cpu.pc, 0xbfc00704);
}

#[test]
fn emulator_jalr_scenario() {
    // jalr saves the address after the delay slot and lands on the target
    // one step later.
    let mut em = machine(0x800, &[(0x19b0 / 4, 0x0040f809)]);
    em.cpu.pc = 0xbfc019b0;
    em.cpu.reg[2] = 0xbfc019b8;

    em.step().unwrap();
    assert_eq!(em.cpu.reg[31], 0xbfc019b8);
    assert_eq!(em.cpu.delay_pc, 0xbfc019b8);
    assert_eq!(em.cpu.delay_state, DelayState::Delayslot);

    em.step().unwrap();
    assert_eq!(em.cpu.pc, 0xbfc019b8);
}

#[test]
fn emulator_halt_device_scenario() {
    // Storing a non-zero byte at the halt device's kseg1 address halts the
    // machine.
    let mut em = machine(1, &[(0, 0xa1090000)]);
    em.cpu.reg[8] = 0xa101_0024;
    em.cpu.reg[9] = 1;
    let ev = em.step().unwrap();
    assert_eq!(ev, EmulationEvent::Halted);
}

#[test]
fn emulator_halt_device_zero_write_continues() {
    // A zero byte written to the halt device does not halt.
    let mut em = machine(1, &[(0, 0xa1090000)]);
    em.cpu.reg[8] = 0xa101_0024;
    em.cpu.reg[9] = 0;
    let ev = em.step().unwrap();
    assert_eq!(ev, EmulationEvent::Step);
}

#[test]
fn emulator_watchpoint_write_scenario() {
    // A store through a watched physical address reports WatchWrite.
    let mut em = machine(1, &[(0, 0xad090000)]);
    em.cpu.reg[8] = 0x8000_0100;
    em.cpu.reg[9] = 0xdeadbeef;
    assert!(em.add_hw_watchpoint(0x100));
    let ev = em.step().unwrap();
    assert_eq!(ev, EmulationEvent::WatchWrite(0x100));
}

#[test]
fn emulator_watchpoint_read_scenario() {
    // A load through a watched physical address reports WatchRead.
    let mut em = machine(1, &[(0, 0x8d090000)]);
    em.cpu.reg[8] = 0x8000_0100;
    assert!(em.add_hw_watchpoint(0x100));
    let ev = em.step().unwrap();
    assert_eq!(ev, EmulationEvent::WatchRead(0x100));
}

#[test]
fn emulator_breakpoint_scenario() {
    let mut em = machine(2, &[]);
    assert!(em.add_sw_breakpoint(0xbfc00004));
    let ev = em.step().unwrap();
    assert_eq!(ev, EmulationEvent::Breakpoint);
    assert!(em.remove_sw_breakpoint(0xbfc00004));
    assert!(!em.remove_sw_breakpoint(0xbfc00004));
}

#[test]
fn emulator_watchpoint_management() {
    let mut em = machine(1, &[]);
    assert!(em.add_hw_watchpoint(0x100));
    assert!(em.add_hw_watchpoint(0x100));
    assert!(em.remove_hw_watchpoint(0x100));
    assert!(em.remove_hw_watchpoint(0x100));
    assert!(!em.remove_hw_watchpoint(0x100));
}

#[test]
fn emulator_bus_registration_overlap() {
    // Registering (0x100, 0x10) and then (0x105, 0x10) fails with a range
    // overlap.
    let mut bus = Bus::new();
    assert!(bus.register(
        rmips::devices::Device::Ram(Ram::new(0x10)),
        0x100,
        0x10
    )
    .is_ok());
    let r = bus.register(rmips::devices::Device::Ram(Ram::new(0x10)), 0x105, 0x10);
    assert!(matches!(r, Err(RmipsError::MemoryRangeOverlap)));
}

#[test]
fn emulator_unmapped_fetch_halts() {
    // An instruction fetch from an unmapped address is fatal: the machine
    // halts with an instruction bus error.
    let mut em = machine(1, &[]);
    em.cpu.pc = 0x8090_0000;
    let ev = em.step().unwrap();
    assert_eq!(ev, EmulationEvent::Halted);
}

#[test]
fn emulator_run_until_halt() {
    // A program that stores a non-zero byte into the halt device after a
    // few nops halts within the budget.
    let mut em = machine(8, &[(4, 0xa1090000)]);
    em.cpu.reg[8] = 0xa101_0024;
    em.cpu.reg[9] = 7;
    let ev = em.continue_for(100).unwrap();
    assert_eq!(ev, Some(EmulationEvent::Halted));
}

#[test]
fn emulator_continue_budget_runs_out() {
    // An all-nop ROM never stops on its own: the budget expires.
    let mut em = machine(64, &[]);
    let ev = em.continue_for(10).unwrap();
    assert_eq!(ev, None);
}

#[test]
fn emulator_zero_register_after_steps() {
    // Register 0 reads as zero at the end of every step, even when an
    // instruction writes it: addiu r0, r0, 7.
    let mut em = machine(2, &[(0, 0x24000007)]);
    em.step().unwrap();
    assert_eq!(em.cpu.reg[0], 0);
    em.step().unwrap();
    assert_eq!(em.cpu.reg[0], 0);
}

#[test]
fn emulator_debug_byte_access() {
    let mut em = machine(1, &[]);
    assert!(em.debug_write_byte(0x8000_0040, 0x5a).is_ok());
    assert_eq!(em.debug_read_byte(0x8000_0040).unwrap(), 0x5a);
    assert!(em.debug_read_byte(0x8090_0000).is_err());
}

#[test]
fn emulator_memsize_zero_rejected() {
    let mut opts = Opts::default();
    opts.memsize = 0;
    let r = Emulator::new(opts, vec![0; 4]);
    assert!(matches!(r, Err(RmipsError::MemoryRangeOverlap)));
}

#[test]
fn lw_misaligned_scenario() {
    // lw with a misaligned virtual address: LoadAddressError, target
    // register unchanged.
    let mut cpu = rmips::cpu::Cpu::new();
    cpu.reset();
    let mut bus = Bus::new();
    bus.register(rmips::devices::Device::Ram(Ram::new(0x2000)), 0, 0x2000)
        .unwrap();
    let mut monitor = Monitor::new(bus, Vec::new());

    let instr = Instruction(0x8d090001);
    cpu.reg[8] = 0x1000;
    let r = cpu.lw_emulate(&mut monitor, instr);
    assert!(r.is_ok());
    assert!(cpu.exception_pending);
    assert_eq!((cpu.cpzero.cause.bits >> 2) & 0x1f, 4);
    assert_eq!(cpu.reg[9], 0);
}

#[test]
fn sh_misaligned_scenario() {
    // sh with a misaligned virtual address: StoreAddressError, memory
    // untouched.
    let mut cpu = rmips::cpu::Cpu::new();
    cpu.reset();
    let mut bus = Bus::new();
    bus.register(rmips::devices::Device::Ram(Ram::new(0x2000)), 0, 0x2000)
        .unwrap();
    let mut monitor = Monitor::new(bus, Vec::new());

    let instr = Instruction(0xa5090001);
    cpu.reg[8] = 0x1000;
    cpu.reg[9] = 0xbeef;
    let r = cpu.sh_emulate(&mut monitor, instr);
    assert!(r.is_ok());
    assert!(cpu.exception_pending);
    assert_eq!((cpu.cpzero.cause.bits >> 2) & 0x1f, 5);
    assert_eq!(monitor.bus.fetch_byte(0x1001).unwrap(), 0);
}

#[test]
fn sll_zero_shift_is_nop() {
    // sll r5, r5, 0 leaves every register unchanged.
    let mut cpu = rmips::cpu::Cpu::new();
    for i in 0..32 {
        cpu.reg[i] = (i as u32) * 3 + 1;
    }
    let before = cpu.reg.clone();
    cpu.sll_emulate(Instruction(0x00052800));
    assert_eq!(cpu.reg, before);
}

#[test]
fn opts_default_values() {
    let opts = Opts::default();
    assert_eq!(opts.loadaddress, 0xbfc00000);
    assert_eq!(opts.memsize, 1048576);
    assert_eq!(opts.debugport, 9001);
    assert_eq!(opts.debugip, "127.0.0.1");
    assert!(!opts.debug);
    assert!(!opts.nohaltdevice);
}

#[test]
fn instruction_field_extraction() {
    let instr = Instruction(0x2149ff9c);
    assert_eq!(instr.opcode(), 0x08);
    assert_eq!(instr.rs(), 10);
    assert_eq!(instr.rt(), 9);
    assert_eq!(instr.immed(), 0xff9c);
    assert_eq!(instr.simmed(), 0xffffff9c);

    let r = Instruction(0x00a62022);
    assert_eq!(r.opcode(), 0);
    assert_eq!(r.rs(), 5);
    assert_eq!(r.rt(), 6);
    assert_eq!(r.rd(), 4);
    assert_eq!(r.shamt(), 0);
    assert_eq!(r.funct(), 0x22);

    let j = Instruction(0x0bf00100);
    assert_eq!(j.opcode(), 2);
    assert_eq!(j.jumptarget(), 0x3f00100);
}

#[test]
fn device_halt_reads_zero() {
    let d = rmips::devices::Device::Halt(rmips::devices::HaltDevice::new());
    assert_eq!(d.read_byte(0).unwrap(), 0);
    assert_eq!(d.read_byte(3).unwrap(), 0);
}

#[test]
fn device_test_scratch_byte() {
    let mut d = rmips::devices::Device::Test(rmips::devices::TestDevice::new());
    assert_eq!(d.read_byte(0).unwrap(), 0);
    assert!(d.write_byte(0, 0x55).is_ok());
    assert_eq!(d.read_byte(0).unwrap(), 0x55);
}

#[test]
fn rom_padding() {
    let rom = rmips::memory::rom::Rom::new(vec![1, 2, 3]);
    assert_eq!(rom.size(), 7);
}
