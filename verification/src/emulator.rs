//! The emulator shell: builds the machine from its options and drives the
//! processor step by step.

use vstd::prelude::*;
use crate::constants::KSEG1;
use crate::cpu::{Cpu, DelayState};
use crate::devices::{halt_device, test_device, DevKind, Device, HaltDevice, TestDevice};
use crate::error::RmipsError;
use crate::memory::bus::Bus;
use crate::memory::monitor::{contains_address, AccessKind, Monitor};
use crate::memory::ram::Ram;
use crate::memory::rom::Rom;
use crate::opts::Opts;
use crate::Address;
use crate::EmulationEvent;

verus! {

/// Two address ranges cover no common address.
pub open spec fn spec_ranges_apart(b1: int, s1: int, b2: int, s2: int) -> bool {
    b1 + s1 <= b2 || b2 + s2 <= b1
}

/// Whether the machine described by `opts`, with a ROM image of `rom_len`
/// bytes, has pairwise disjoint device ranges, so that construction
/// succeeds.
pub open spec fn spec_layout_ok(opts: Opts, rom_len: int) -> bool {
    let rp = opts.loadaddress - KSEG1;
    let rl = rom_len + 4;
    let ms = opts.memsize as int;
    let hb = halt_device::BASE_ADDRESS as int;
    let hl = halt_device::DATA_LEN as int;
    let tb = test_device::BASE_ADDRESS as int;
    let tl = test_device::DATA_LEN as int;
    &&& ms >= 1
    &&& spec_ranges_apart(rp, rl, 0, ms)
    &&& (!opts.nohaltdevice ==> spec_ranges_apart(rp, rl, hb, hl) && spec_ranges_apart(
        0,
        ms,
        hb,
        hl,
    ))
    &&& spec_ranges_apart(rp, rl, tb, tl)
    &&& spec_ranges_apart(0, ms, tb, tl)
}

/// The emulator shell: the processor, the monitored bus, and the breakpoint
/// set owned on behalf of a debugger.
pub struct Emulator {
    /// The processor.
    pub cpu: Cpu,
    /// The bus, wrapped with watchpoint observation.
    pub monitor: Monitor,
    /// Addresses at which a step reports `Breakpoint`.
    pub breakpoints: Vec<Address>,
    /// How many instructions have been executed, modulo the counter width.
    pub instruction_count: u64,
    /// The options the machine was built from.
    pub opts: Opts,
}

/// The event that a completed (non-halting) step reports: the recorded
/// watchpoint access if one happened, else a breakpoint when the program
/// counter landed on one, else an ordinary step.
pub open spec fn spec_event(e: Emulator) -> EmulationEvent {
    match e.monitor.hit {
        Some(access) => match access.kind {
            AccessKind::Read => EmulationEvent::WatchRead(access.address),
            AccessKind::Write => EmulationEvent::WatchWrite(access.address),
        },
        None => if e.breakpoints@.contains(e.cpu.pc) {
            EmulationEvent::Breakpoint
        } else {
            EmulationEvent::Step
        },
    }
}

impl Emulator {
    /// The processor is sound, register 0 reads as zero, and the bus is
    /// well formed.
    pub open spec fn wf(self) -> bool {
        &&& self.cpu.wf()
        &&& self.cpu.gpr(0) == 0
        &&& self.monitor.wf()
    }

    /// Builds the machine: the ROM image mapped at the physical address of
    /// `opts.loadaddress`, RAM at physical address zero, and the halt and
    /// test devices at their fixed addresses. The processor starts reset.
    ///
    /// Construction succeeds exactly when RAM is non-empty and no two device
    /// ranges overlap; otherwise it fails with `MemoryRangeOverlap`.
    pub fn new(opts: Opts, rom_data: Vec<u8>) -> (r: Result<Emulator, RmipsError>)
        requires
            opts.loadaddress >= KSEG1,
            opts.loadaddress - KSEG1 + rom_data@.len() + 4 <= 0x1_0000_0000,
            opts.memsize <= 0x1_0000_0000,
            rom_data@.len() + 4 <= usize::MAX,
        ensures
            r is Ok <==> spec_layout_ok(opts, rom_data@.len() as int),
            r is Err ==> r == Err::<Emulator, RmipsError>(RmipsError::MemoryRangeOverlap),
            match r {
                Ok(em) => {
                    let rp = (opts.loadaddress - KSEG1) as u32;
                    let rl = rom_data@.len() + 4;
                    &&& em.wf()
                    &&& em.cpu.pc == 0xbfc0_0000
                    &&& forall|i: int| 0 <= i < 32 ==> em.cpu.reg@[i] == 0u32
                    &&& em.cpu.cpzero.status.spec_bootstrap_mode()
                    &&& em.cpu.cpzero.status.spec_kernel_mode()
                    &&& !em.cpu.cpzero.status.spec_interrupts_enabled()
                    &&& em.cpu.cpzero.status.bits == 0x0040_0000
                    &&& em.cpu.cpzero.random.spec_value() == 63
                    &&& em.cpu.cpzero.prid.bits == 0x230
                    &&& em.cpu.delay_state == DelayState::Normal
                    &&& !em.cpu.exception_pending
                    &&& em.breakpoints@.len() == 0
                    &&& em.monitor.watchpoints@.len() == 0
                    &&& em.monitor.hit is None
                    &&& em.instruction_count == 0
                    &&& em.monitor.bus.devices@.len() == (if opts.nohaltdevice {
                        3int
                    } else {
                        4int
                    })
                    &&& em.monitor.bus.devices@[0].0 == (crate::memory::range::Range {
                        base: rp,
                        size: rl as usize,
                    })
                    &&& em.monitor.bus.devices@[0].1.kind() == DevKind::Rom
                    &&& em.monitor.bus.devices@[0].1.contents() == rom_data@ + seq![
                        0u8,
                        0u8,
                        0u8,
                        0u8,
                    ]
                    &&& em.monitor.bus.devices@[1].0 == (crate::memory::range::Range {
                        base: 0,
                        size: opts.memsize,
                    })
                    &&& em.monitor.bus.devices@[1].1.kind() == DevKind::Ram
                    &&& em.monitor.bus.devices@[1].1.contents().len() == opts.memsize
                    &&& forall|i: int|
                        0 <= i < opts.memsize ==> em.monitor.bus.devices@[1].1.contents()[i]
                            == 0u8
                    &&& (!opts.nohaltdevice ==> em.monitor.bus.devices@[2].0 == (
                    crate::memory::range::Range {
                        base: halt_device::BASE_ADDRESS,
                        size: halt_device::DATA_LEN,
                    }) && em.monitor.bus.devices@[2].1.kind() == DevKind::Halt)
                    &&& ({
                        let t = if opts.nohaltdevice {
                            2int
                        } else {
                            3int
                        };
                        em.monitor.bus.devices@[t].0 == (crate::memory::range::Range {
                            base: test_device::BASE_ADDRESS,
                            size: test_device::DATA_LEN,
                        }) && em.monitor.bus.devices@[t].1.kind() == DevKind::Test
                    })
                },
                Err(_) => true,
            },
    {
        let mut bus = Bus::new();

        // The ROM lives in kseg1, so its physical address is the load
        // address stripped of the kseg1 offset.
        let paddress = opts.loadaddress - KSEG1;
        let rom = Rom::new(rom_data);
        let size = rom.size();
        match bus.register(Device::Rom(rom), paddress, size) {
            Ok(_) => (),
            Err(e) => {
                return Err(e);
            },
        }

        // RAM sits at physical address zero.
        let ram = Ram::new(opts.memsize);
        match bus.register(Device::Ram(ram), 0, opts.memsize) {
            Ok(_) => (),
            Err(e) => {
                return Err(e);
            },
        }

        if !opts.nohaltdevice {
            match bus.register(
                Device::Halt(HaltDevice::new()),
                halt_device::BASE_ADDRESS,
                halt_device::DATA_LEN,
            ) {
                Ok(_) => (),
                Err(e) => {
                    return Err(e);
                },
            }
        }

        match bus.register(
            Device::Test(TestDevice::new()),
            test_device::BASE_ADDRESS,
            test_device::DATA_LEN,
        ) {
            Ok(_) => (),
            Err(e) => {
                return Err(e);
            },
        }

        let mut cpu = Cpu::new();
        cpu.reset();

        Ok(
            Emulator {
                cpu,
                monitor: Monitor::new(bus, Vec::new()),
                breakpoints: Vec::new(),
                instruction_count: 0,
                opts,
            },
        )
    }

    /// Executes one instruction and classifies what happened: a halt, a
    /// watched access, a breakpoint hit, or an ordinary step. Bus faults
    /// other than a halt propagate as errors.
    ///
    /// The processor advanced by exactly one step, taken under [`step_post`]
    /// on the hit-cleared monitor: `Halted` is returned exactly when that
    /// step signalled the halt, and any other event classifies the recorded
    /// watchpoint hit or a breakpoint at the new program counter.
    pub fn step(&mut self) -> (r: Result<EmulationEvent, RmipsError>)
        requires
            old(self).wf(),
        ensures
            final(self).wf(),
            final(self).breakpoints == old(self).breakpoints,
            final(self).monitor.watchpoints == old(self).monitor.watchpoints,
            match r {
                Ok(ev) => exists|c: Cpu, m: Monitor, rr: Result<(), RmipsError>|
                    {
                        &&& #[trigger] crate::cpu::step_post(
                            old(self).cpu,
                            old(self).monitor.cleared(),
                            c,
                            m,
                            rr,
                        )
                        &&& final(self).cpu == c
                        &&& final(self).monitor == m
                        &&& (ev == EmulationEvent::Halted <==> rr == Err::<(), RmipsError>(
                            RmipsError::Halt,
                        ))
                        &&& (ev != EmulationEvent::Halted ==> rr is Ok && ev == spec_event(
                            *final(self),
                        ) && final(self).instruction_count == old(
                            self,
                        ).instruction_count.wrapping_add(1))
                        &&& (ev == EmulationEvent::Halted ==> final(self).instruction_count
                            == old(self).instruction_count)
                    },
                Err(e) => !(e is Halt) && exists|c: Cpu, m: Monitor|
                    {
                        &&& #[trigger] crate::cpu::step_post(
                            old(self).cpu,
                            old(self).monitor.cleared(),
                            c,
                            m,
                            Err(e),
                        )
                        &&& final(self).cpu == c
                        &&& final(self).monitor == m
                        &&& final(self).instruction_count == old(self).instruction_count
                    },
            },
    {
        self.monitor.clear_hit();

        let stepped = self.cpu.step(&mut self.monitor);
        proof {
            assert(crate::cpu::step_post(
                old(self).cpu,
                old(self).monitor.cleared(),
                self.cpu,
                self.monitor,
                stepped,
            ));
        }
        match stepped {
            Err(RmipsError::Halt) => {
                return Ok(EmulationEvent::Halted);
            },
            Err(e) => {
                return Err(e);
            },
            Ok(_) => (),
        }

        self.instruction_count = self.instruction_count.wrapping_add(1);

        if let Some(access) = self.monitor.hit {
            match access.kind {
                AccessKind::Read => Ok(EmulationEvent::WatchRead(access.address)),
                AccessKind::Write => Ok(EmulationEvent::WatchWrite(access.address)),
            }
        } else if contains_address(&self.breakpoints, self.cpu.pc) {
            Ok(EmulationEvent::Breakpoint)
        } else {
            Ok(EmulationEvent::Step)
        }
    }

    /// Steps until something other than an ordinary step happens, or until
    /// `max_steps` instructions have run. Returns the stopping event, or
    /// `None` when the budget ran out first; a caller that polls for
    /// interrupts calls this with a bounded budget and polls in between.
    pub fn continue_for(&mut self, max_steps: u64) -> (r: Result<
        Option<EmulationEvent>,
        RmipsError,
    >)
        requires
            old(self).wf(),
        ensures
            final(self).wf(),
            final(self).breakpoints == old(self).breakpoints,
            final(self).monitor.watchpoints == old(self).monitor.watchpoints,
            match r {
                Ok(Some(ev)) => ev != EmulationEvent::Step && (ev == EmulationEvent::Halted || ev
                    == spec_event(*final(self))),
                Ok(None) => final(self).instruction_count == old(
                    self,
                ).instruction_count.wrapping_add(max_steps),
                Err(e) => !(e is Halt),
            },
    {
        let mut steps: u64 = 0;
        while steps < max_steps
            invariant
                self.wf(),
                self.breakpoints == old(self).breakpoints,
                self.monitor.watchpoints == old(self).monitor.watchpoints,
                steps <= max_steps,
                self.instruction_count == old(self).instruction_count.wrapping_add(steps),
            decreases max_steps - steps,
        {
            let event = match self.step() {
                Ok(ev) => ev,
                Err(e) => {
                    return Err(e);
                },
            };
            if !matches!(event, EmulationEvent::Step) {
                return Ok(Some(event));
            }
            steps = steps + 1;
        }
        Ok(None)
    }

    /// Adds a breakpoint; duplicates are allowed.
    pub fn add_sw_breakpoint(&mut self, address: Address) -> (r: bool)
        ensures
            final(self).breakpoints@ == old(self).breakpoints@.push(address),
            r,
            final(self).cpu == old(self).cpu,
            final(self).monitor == old(self).monitor,
            final(self).instruction_count == old(self).instruction_count,
    {
        self.breakpoints.push(address);
        true
    }

    /// Removes one occurrence of a breakpoint. Returns false, changing
    /// nothing, when the address is not set.
    pub fn remove_sw_breakpoint(&mut self, address: Address) -> (r: bool)
        ensures
            r == old(self).breakpoints@.contains(address),
            !r ==> final(self).breakpoints == old(self).breakpoints,
            r ==> exists|i: int|
                {
                    &&& 0 <= i < old(self).breakpoints@.len()
                    &&& old(self).breakpoints@[i] == address
                    &&& final(self).breakpoints@ == old(self).breakpoints@.remove(i)
                },
            final(self).cpu == old(self).cpu,
            final(self).monitor == old(self).monitor,
            final(self).instruction_count == old(self).instruction_count,
    {
        let n = self.breakpoints.len();
        let mut i: usize = 0;
        while i < n
            invariant
                n == self.breakpoints@.len(),
                0 <= i <= n,
                self == old(self),
                forall|j: int| 0 <= j < i ==> self.breakpoints@[j] != address,
            decreases n - i,
        {
            if self.breakpoints[i] == address {
                self.breakpoints.remove(i);
                return true;
            }
            i = i + 1;
        }
        false
    }

    /// Adds a watchpoint; duplicates are allowed.
    pub fn add_hw_watchpoint(&mut self, address: Address) -> (r: bool)
        ensures
            final(self).monitor.watchpoints@ == old(self).monitor.watchpoints@.push(address),
            r,
            final(self).cpu == old(self).cpu,
            final(self).monitor.bus == old(self).monitor.bus,
            final(self).monitor.hit == old(self).monitor.hit,
            final(self).breakpoints == old(self).breakpoints,
            final(self).instruction_count == old(self).instruction_count,
    {
        self.monitor.watchpoints.push(address);
        true
    }

    /// Removes one occurrence of a watchpoint. Returns false, changing
    /// nothing, when the address is not watched.
    pub fn remove_hw_watchpoint(&mut self, address: Address) -> (r: bool)
        ensures
            r == old(self).monitor.watchpoints@.contains(address),
            !r ==> final(self).monitor.watchpoints == old(self).monitor.watchpoints,
            r ==> exists|i: int|
                {
                    &&& 0 <= i < old(self).monitor.watchpoints@.len()
                    &&& old(self).monitor.watchpoints@[i] == address
                    &&& final(self).monitor.watchpoints@ == old(self).monitor.watchpoints@.remove(
                        i,
                    )
                },
            final(self).cpu == old(self).cpu,
            final(self).monitor.bus == old(self).monitor.bus,
            final(self).monitor.hit == old(self).monitor.hit,
            final(self).breakpoints == old(self).breakpoints,
            final(self).instruction_count == old(self).instruction_count,
    {
        let n = self.monitor.watchpoints.len();
        let mut i: usize = 0;
        while i < n
            invariant
                n == self.monitor.watchpoints@.len(),
                0 <= i <= n,
                self == old(self),
                forall|j: int| 0 <= j < i ==> self.monitor.watchpoints@[j] != address,
            decreases n - i,
        {
            if self.monitor.watchpoints[i] == address {
                self.monitor.watchpoints.remove(i);
                return true;
            }
            i = i + 1;
        }
        false
    }

    /// Reads one byte on behalf of a debugger: the virtual address is
    /// translated by CP0 and the byte is fetched straight from the bus,
    /// without watchpoint observation.
    pub fn debug_read_byte(&self, vaddress: Address) -> (r: Result<u8, RmipsError>)
        requires
            self.wf(),
        ensures
            r == self.monitor.bus.spec_fetch_byte(self.cpu.cpzero.spec_translate(vaddress)),
    {
        let paddress = self.cpu.cpzero.translate(vaddress);
        self.monitor.bus.fetch_byte(paddress)
    }

    /// Writes one byte on behalf of a debugger: the virtual address is
    /// translated by CP0 and the byte is stored straight to the bus,
    /// without watchpoint observation.
    pub fn debug_write_byte(&mut self, vaddress: Address, data: u8) -> (r: Result<(), RmipsError>)
        requires
            old(self).wf(),
        ensures
            final(self).wf(),
            crate::memory::bus::store_byte_post(
                old(self).monitor.bus,
                final(self).monitor.bus,
                old(self).cpu.cpzero.spec_translate(vaddress),
                data,
                r,
            ),
            final(self).cpu == old(self).cpu,
            final(self).monitor.watchpoints == old(self).monitor.watchpoints,
            final(self).monitor.hit == old(self).monitor.hit,
            final(self).breakpoints == old(self).breakpoints,
    {
        let paddress = self.cpu.cpzero.translate(vaddress);
        self.monitor.bus.store_byte(paddress, data)
    }
}

} // verus!
