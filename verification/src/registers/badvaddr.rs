//! The CP0 BadVaddr register: the address whose reference led to the last
//! address-error or MMU exception.

use vstd::prelude::*;

verus! {

/// BadVaddr register.
#[derive(Clone, Copy, Debug, PartialEq, Eq, Structural)]
pub struct BadVaddrRegister {
    pub address: u32,
}

impl BadVaddrRegister {
    /// Returns a BadVaddr register holding address zero.
    pub fn new() -> (r: Self)
        ensures
            r.address == 0,
    {
        BadVaddrRegister { address: 0 }
    }
}

} // verus!
