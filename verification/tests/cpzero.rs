//! CP0 reset, exception entry, return from exception, and the Cause
//! register's code field.

use rmips::cpzero::CPZero;
use rmips::exception::ExceptionCode;
use rmips::registers::CauseRegister;

#[test]
fn cpzero_reset() {
    let mut cp0 = CPZero::new();
    cp0.reset();

    assert_eq!(cp0.random.get_value(), 63);
    assert_eq!(cp0.boot_exception_vector_enabled(), true);
    assert_eq!(cp0.kernel_mode(), true);
    assert_eq!(cp0.interrupts_enabled(), false);
    assert_eq!(cp0.coprocessor_usable(0), false);
    assert_eq!(cp0.coprocessor_usable(1), false);
    assert_eq!(cp0.coprocessor_usable(2), false);
    assert_eq!(cp0.coprocessor_usable(3), false);
    assert_eq!(cp0.prid.bits, 0x230);
}

#[test]
fn cpzero_exception_coprocessor_unusable() {
    let mut cp0 = CPZero::new();
    cp0.reset();

    cp0.exception(0xbfc00400, ExceptionCode::CoprocessorUnusable, false);
    assert_eq!(cp0.kernel_mode(), true);
    assert_eq!(cp0.interrupts_enabled(), false);

    assert_ne!(cp0.cause.get_coprocessor_error(), 0);
    assert_eq!(
        cp0.cause.get_exception_code(),
        ExceptionCode::CoprocessorUnusable
    );
    assert_eq!(cp0.cause.is_branch_delay(), false);
}

#[test]
fn cpzero_exception_interrupt() {
    let mut cp0 = CPZero::new();
    cp0.reset();

    cp0.exception(0xbfc00400, ExceptionCode::Interrupt, true);
    assert_eq!(cp0.kernel_mode(), true);
    assert_eq!(cp0.interrupts_enabled(), false);

    assert_eq!(cp0.cause.get_coprocessor_error(), 0);
    assert_eq!(cp0.cause.get_exception_code(), ExceptionCode::Interrupt);
    assert_eq!(cp0.cause.is_branch_delay(), true);
}

#[test]
fn cpzero_rfe_emulate() {
    let mut cp0 = CPZero::new();
    cp0.reset();

    cp0.status.set_kuo();
    cp0.status.clear_ieo();
    cp0.status.clear_kup();
    cp0.status.set_iep();
    cp0.rfe_emulate();

    assert_eq!(cp0.status.kuo(), true);
    assert_eq!(cp0.status.ieo(), false);
    assert_eq!(cp0.status.kup(), true);
    assert_eq!(cp0.status.iep(), false);
    // KUc was restored from the cleared KUp: clear means kernel mode.
    assert_eq!(cp0.status.is_kernel_mode(), true);
    assert_eq!(cp0.status.are_interrupts_enabled(), true);
}

#[test]
fn cause_exception_code() {
    let mut cause = CauseRegister::new();
    cause.set_exception_code(ExceptionCode::Break);
    assert_eq!(cause.get_exception_code(), ExceptionCode::Break);
}

#[test]
fn cpzero_exception_delay_slot_epc() {
    // An exception entered from a delay slot records the branch address in
    // EPC and sets the BD bit.
    let mut cp0 = CPZero::new();
    cp0.reset();
    cp0.exception(0xbfc00408, ExceptionCode::Syscall, true);
    assert_eq!(cp0.epc.address, 0xbfc00404);
    assert!(cp0.cause.is_branch_delay());

    let mut cp0 = CPZero::new();
    cp0.reset();
    cp0.exception(0xbfc00408, ExceptionCode::Syscall, false);
    assert_eq!(cp0.epc.address, 0xbfc00408);
    assert!(!cp0.cause.is_branch_delay());
}

#[test]
fn cpzero_exception_then_rfe_restores_mode() {
    // Exception entry saves (KUc, IEc) over (KUp, IEp); `rfe` pops them
    // back: the current mode bits after `rfe` are the ones saved.
    let mut cp0 = CPZero::new();
    // Start in user mode with interrupts enabled: KUc = 1, IEc = 1, and a
    // previous pair KUp = 1, IEp = 1.
    cp0.status.enter_user_mode();
    cp0.status.enable_interrupts();
    cp0.status.set_kup();
    cp0.status.set_iep();

    cp0.exception(0x1000, ExceptionCode::Interrupt, false);
    // Entry pushed the stack: kernel mode, interrupts off.
    assert!(cp0.kernel_mode());
    assert!(!cp0.interrupts_enabled());
    assert!(cp0.status.kup());
    assert!(cp0.status.iep());

    cp0.rfe_emulate();
    // The saved current bits are back: user mode, interrupts on.
    assert!(!cp0.kernel_mode());
    assert!(cp0.interrupts_enabled());
    assert!(cp0.status.kup());
    assert!(cp0.status.iep());
}

#[test]
fn cpzero_translate_segments() {
    // kseg0 subtracts 0x8000_0000; kseg1 subtracts 0xa000_0000; kuseg and
    // kseg2 are identity while the TLB is stubbed.
    let mut cp0 = CPZero::new();
    cp0.reset();
    assert_eq!(cp0.translate(0x8000_1234), 0x0000_1234);
    assert_eq!(cp0.translate(0x9fff_ffff), 0x1fff_ffff);
    assert_eq!(cp0.translate(0xa000_1234), 0x0000_1234);
    assert_eq!(cp0.translate(0xbfc0_0000), 0x1fc0_0000);
    assert_eq!(cp0.translate(0x0000_4000), 0x0000_4000);
    assert_eq!(cp0.translate(0xc000_0004), 0xc000_0004);
}

#[test]
fn cpzero_translate_user_mode_kernel_address() {
    // In user mode a kernel-space address yields the sentinel.
    let mut cp0 = CPZero::new();
    cp0.reset();
    cp0.status.enter_user_mode();
    assert_eq!(cp0.translate(0x8000_0000), 0xffff_ffff);
    assert_eq!(cp0.translate(0x0000_1000), 0x0000_1000);
}

#[test]
fn cpzero_tlb_write_and_read_back() {
    // `tlbwi` stores EntryHi/EntryLo in the slot that Index selects, and
    // `tlbr` reads them back.
    let mut cp0 = CPZero::new();
    cp0.reset();
    cp0.index.set_index(5);
    cp0.entryhi = 0x0001_2000;
    cp0.entrylo = 0x0034_5600;
    cp0.tlbwi_emulate();

    cp0.entryhi = 0;
    cp0.entrylo = 0;
    cp0.tlbr_emulate();
    assert_eq!(cp0.entryhi, 0x0001_2000);
    assert_eq!(cp0.entrylo, 0x0034_5600);
}

#[test]
fn cpzero_tlbp_probe() {
    // `tlbp` finds the slot whose entry matches EntryHi and records it in
    // Index; a miss sets the probe-failure bit instead.
    let mut cp0 = CPZero::new();
    cp0.reset();
    cp0.index.set_index(7);
    cp0.entryhi = 0x0004_2000;
    cp0.entrylo = 0x0000_0100;  // global flag set
    cp0.tlbwi_emulate();

    cp0.tlbp_emulate();
    assert!(!cp0.index.is_p());
    assert_eq!(cp0.index.get_index(), 7);

    cp0.entryhi = 0x0009_9000;
    cp0.tlbp_emulate();
    assert!(cp0.index.is_p());
}
