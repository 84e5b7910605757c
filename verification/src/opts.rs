//! Startup options for the emulator.

use vstd::prelude::*;
use crate::Address;

verus! {

/// Options that shape the machine being built: the ROM image, where it is
/// mapped, how much RAM exists, and the debugging toggles.
pub struct Opts {
    /// Path of the ROM file loaded into memory.
    pub romfile: String,
    /// Verbosity of the logging output.
    pub verbose: i32,
    /// Virtual address at which the ROM is mapped; must lie in kseg1.
    pub loadaddress: Address,
    /// Size of the machine's RAM region in bytes.
    pub memsize: usize,
    /// Whether to serve a remote debugger.
    pub debug: bool,
    /// TCP port for the debugger to connect to.
    pub debugport: u16,
    /// IP address for the debugger to connect to.
    pub debugip: String,
    /// Whether to interpret the ROM image as big-endian.
    pub bigendian: bool,
    /// Whether to print the memory mappings on startup.
    pub memmap: bool,
    /// Whether to print instructions as they are executed.
    pub instrdump: bool,
    /// Whether to omit the halt device from physical memory.
    pub nohaltdevice: bool,
}

impl Default for Opts {
    /// The stock machine: one mebibyte of RAM, the ROM mapped at the reset
    /// vector, and no debugger.
    fn default() -> (r: Self)
        ensures
            r.romfile@ == Seq::<char>::empty(),
            r.verbose == 0,
            r.loadaddress == 0xbfc0_0000u32,
            r.memsize == 1048576usize,
            !r.debug,
            r.debugport == 9001u16,
            !r.bigendian,
            !r.memmap,
            !r.instrdump,
            !r.nohaltdevice,
    {
        Opts {
            romfile: String::new(),
            verbose: 0,
            loadaddress: 0xbfc0_0000,
            memsize: 1048576,
            debug: false,
            debugport: 9001,
            debugip: "127.0.0.1".to_owned(),
            bigendian: false,
            memmap: false,
            instrdump: false,
            nohaltdevice: false,
        }
    }
}

} // verus!
