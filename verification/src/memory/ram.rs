//! Random-access memory backed by a zero-initialised byte vector.

use vstd::prelude::*;

verus! {

/// A RAM module.
#[derive(Debug)]
pub struct Ram {
    /// The backing bytes.
    pub data: Vec<u8>,
}

impl Ram {
    /// Returns a RAM module of `size` zero bytes.
    pub fn new(size: usize) -> (r: Ram)
        ensures
            r.data@.len() == size,
            forall|i: int| 0 <= i < size ==> r.data@[i] == 0u8,
    {
        Ram { data: vec![0u8; size] }
    }
}

} // verus!
