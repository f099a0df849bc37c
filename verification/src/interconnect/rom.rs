//! The read-only program image, at most 8 KiB.

use vstd::prelude::*;

verus! {

/// An immutable program image. Addresses beyond its end read as zero, so
/// a short image behaves as if padded to the full 8 KiB ROM region.
#[derive(Debug)]
pub struct Rom {
    bytes: Vec<u8>,
}

impl Rom {
    /// The image's bytes.
    pub closed spec fn spec_bytes(self) -> Seq<u8> {
        self.bytes@
    }

    /// The image fits the 8 KiB ROM region.
    pub open spec fn wf(self) -> bool {
        self.spec_bytes().len() <= 0x2000
    }

    /// The byte at `addr`, zero beyond the image's end.
    pub open spec fn spec_read(self, addr: u16) -> u8 {
        if addr < self.spec_bytes().len() {
            self.spec_bytes()[addr as int]
        } else {
            0
        }
    }

    /// Wraps a program image of at most 8 KiB.
    pub fn new(bytes: Vec<u8>) -> (r: Rom)
        requires
            bytes@.len() <= 0x2000,
        ensures
            r.wf(),
            r.spec_bytes() == bytes@,
    {
        Rom { bytes }
    }

    /// Reads one byte; addresses past the image's end read as zero.
    pub fn read_byte(&self, addr: u16) -> (b: u8)
        ensures
            b == self.spec_read(addr),
    {
        if (addr as usize) < self.bytes.len() {
            self.bytes[addr as usize]
        } else {
            0
        }
    }

    /// The image's length in bytes.
    pub fn len(&self) -> (n: usize)
        ensures
            n == self.spec_bytes().len(),
    {
        self.bytes.len()
    }
}

} // verus!
