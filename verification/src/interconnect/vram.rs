//! The 7 KiB video RAM region.

use vstd::prelude::*;

verus! {

/// Video RAM: 7 KiB read by the display, zeroed at construction.
#[derive(Debug)]
pub struct Vram {
    bytes: Vec<u8>,
}

impl Vram {
    /// The region's bytes.
    pub closed spec fn spec_bytes(self) -> Seq<u8> {
        self.bytes@
    }

    /// The region holds exactly 7 KiB.
    pub open spec fn wf(self) -> bool {
        self.spec_bytes().len() == 0x1c00
    }

    /// A zeroed video RAM region.
    pub fn new() -> (r: Vram)
        ensures
            r.wf(),
            forall|i: int| 0 <= i < 0x1c00 ==> r.spec_bytes()[i] == 0,
    {
        let mut bytes: Vec<u8> = Vec::new();
        while bytes.len() < 0x1c00
            invariant
                bytes@.len() <= 0x1c00,
                forall|i: int| 0 <= i < bytes@.len() ==> bytes@[i] == 0,
            decreases 0x1c00 - bytes.len(),
        {
            bytes.push(0);
        }
        Vram { bytes }
    }

    /// Reads the byte at an offset within the region.
    pub fn read_byte(&self, addr: u16) -> (b: u8)
        requires
            self.wf(),
            addr < 0x1c00,
        ensures
            b == self.spec_bytes()[addr as int],
    {
        self.bytes[addr as usize]
    }

    /// Replaces the byte at an offset within the region.
    pub fn write_byte(&mut self, addr: u16, value: u8)
        requires
            old(self).wf(),
            addr < 0x1c00,
        ensures
            final(self).wf(),
            final(self).spec_bytes() == old(self).spec_bytes().update(addr as int, value),
    {
        self.bytes.set(addr as usize, value);
    }
}

} // verus!
