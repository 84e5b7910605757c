//! The memory subsystem: address ranges, the bus, the watchpoint monitor,
//! and the RAM and ROM modules.

pub mod bus;
pub mod mapper;
pub mod monitor;
pub mod ram;
pub mod range;
pub mod rom;
