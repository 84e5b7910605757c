//! Read-only-image memory: a byte buffer built from a ROM image.
//!
//! Writes into the buffer succeed, as they do on the RAM module; boot images
//! that patch themselves rely on that.

use vstd::prelude::*;

verus! {

/// A ROM module holding an image.
#[derive(Debug)]
pub struct Rom {
    /// The backing bytes: the image followed by one word of zero padding.
    pub data: Vec<u8>,
}

impl Rom {
    /// Returns a ROM holding `image`, padded with one extra word of zeros so
    /// that a fetch of the last image word never runs off the end.
    pub fn new(image: Vec<u8>) -> (r: Rom)
        requires
            image@.len() + 4 <= usize::MAX,
        ensures
            r.data@ == image@ + seq![0u8, 0u8, 0u8, 0u8],
    {
        let ghost orig = image@;
        let mut data = image;
        data.push(0);
        data.push(0);
        data.push(0);
        data.push(0);
        proof {
            assert(data@ =~= orig + seq![0u8, 0u8, 0u8, 0u8]);
        }
        Rom { data }
    }

    /// The number of bytes the ROM holds, padding included.
    pub fn size(&self) -> (r: usize)
        ensures
            r == self.data@.len(),
    {
        self.data.len()
    }
}

} // verus!
