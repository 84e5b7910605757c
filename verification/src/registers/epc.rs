//! The CP0 EPC register: the address at which execution resumes after an
//! exception handler completes. When Cause.BD is set it points at the
//! branch that precedes the faulting instruction.

use vstd::prelude::*;

verus! {

/// EPC register.
#[derive(Clone, Copy, Debug, PartialEq, Eq, Structural)]
pub struct EpcRegister {
    pub address: u32,
}

impl EpcRegister {
    /// Returns an EPC register holding address zero.
    pub fn new() -> (r: Self)
        ensures
            r.address == 0,
    {
        EpcRegister { address: 0 }
    }
}

} // verus!
