//! The memory bus: an address-space router over ROM, work RAM and video
//! RAM, with writes into the ROM region rejected.

use vstd::prelude::*;

pub mod rom;
pub mod vram;
pub mod wram;

use crate::i8080::error::EmulateError;
use self::rom::Rom;
use self::vram::Vram;
use self::wram::Wram;

verus! {

/// The 64 KiB address space: ROM at `0x0000..=0x1fff`, work RAM at
/// `0x2000..=0x23ff`, video RAM at `0x2400..=0x3fff`. Addresses from
/// `0x4000` up are unmapped: they read as zero and ignore writes.
#[derive(Debug)]
pub struct Interconnect {
    rom: Rom,
    wram: Wram,
    vram: Vram,
}

/// True for the writable, mapped addresses: work RAM and video RAM.
pub open spec fn is_ram(addr: u16) -> bool {
    0x2000 <= addr < 0x4000
}

/// The two busses hold the same bytes everywhere.
pub open spec fn same_mem(m0: Interconnect, m1: Interconnect) -> bool {
    &&& m1.rom_view() == m0.rom_view()
    &&& m1.wram_view() == m0.wram_view()
    &&& m1.vram_view() == m0.vram_view()
}

/// `m1` is `m0` after one write of `value` at `addr`: the byte there is
/// replaced when the address is RAM, and nothing else changes. A write to
/// an unmapped address changes nothing.
pub open spec fn mem_written(m0: Interconnect, m1: Interconnect, addr: u16, value: u8) -> bool {
    &&& m1.rom_view() == m0.rom_view()
    &&& m1.wram_view().len() == m0.wram_view().len()
    &&& m1.vram_view().len() == m0.vram_view().len()
    &&& forall|a: u16|
        m1.spec_read(a) == (if a == addr && is_ram(addr) {
            value
        } else {
            m0.spec_read(a)
        })
}

/// `m1` is `m0` after a write of `v1` at `a1` followed by a write of `v2`
/// at `a2`.
pub open spec fn mem_written_two(
    m0: Interconnect,
    m1: Interconnect,
    a1: u16,
    v1: u8,
    a2: u16,
    v2: u8,
) -> bool {
    &&& m1.rom_view() == m0.rom_view()
    &&& m1.wram_view().len() == m0.wram_view().len()
    &&& m1.vram_view().len() == m0.vram_view().len()
    &&& forall|a: u16|
        m1.spec_read(a) == (if a == a2 && is_ram(a2) {
            v2
        } else if a == a1 && is_ram(a1) {
            v1
        } else {
            m0.spec_read(a)
        })
}

/// What one write through the bus does: inside the ROM region it is
/// rejected with `WriteToROM` and the memory keeps every byte; everywhere
/// else it succeeds, replacing exactly the addressed byte when the
/// address is RAM and nothing when it is unmapped.
pub open spec fn bus_write_rel(
    m0: Interconnect,
    m1: Interconnect,
    addr: u16,
    value: u8,
    r: Result<(), EmulateError>,
) -> bool {
    &&& (addr < 0x2000 ==> r == Err::<(), EmulateError>(EmulateError::WriteToROM) && same_mem(
        m0,
        m1,
    ))
    &&& (addr >= 0x2000 ==> r == Ok::<(), EmulateError>(()) && mem_written(m0, m1, addr, value))
}

impl Interconnect {
    /// The ROM image's bytes.
    pub closed spec fn rom_view(self) -> Seq<u8> {
        self.rom.spec_bytes()
    }

    /// The work RAM bytes.
    pub closed spec fn wram_view(self) -> Seq<u8> {
        self.wram.spec_bytes()
    }

    /// The video RAM bytes.
    pub closed spec fn vram_view(self) -> Seq<u8> {
        self.vram.spec_bytes()
    }

    /// The regions have their fixed sizes: the ROM image fits its 8 KiB,
    /// work RAM is 1 KiB, video RAM 7 KiB.
    pub open spec fn wf(self) -> bool {
        &&& self.rom_view().len() <= 0x2000
        &&& self.wram_view().len() == 0x400
        &&& self.vram_view().len() == 0x1c00
    }

    /// The byte visible at an address: ROM (zero beyond the image's end),
    /// work RAM, video RAM, or zero where nothing is mapped.
    pub open spec fn spec_read(self, addr: u16) -> u8 {
        if addr < 0x2000 {
            if addr < self.rom_view().len() {
                self.rom_view()[addr as int]
            } else {
                0
            }
        } else if addr < 0x2400 {
            self.wram_view()[addr - 0x2000]
        } else if addr < 0x4000 {
            self.vram_view()[addr - 0x2400]
        } else {
            0
        }
    }

    /// A bus around a program image, with both RAM regions zeroed.
    pub fn new(rom: Rom) -> (r: Interconnect)
        requires
            rom.wf(),
        ensures
            r.wf(),
            r.rom_view() == rom.spec_bytes(),
            forall|a: u16| is_ram(a) ==> r.spec_read(a) == 0,
    {
        Interconnect { rom, wram: Wram::new(), vram: Vram::new() }
    }

    /// The program image's length in bytes.
    pub fn rom_len(&self) -> (n: usize)
        ensures
            n == self.rom_view().len(),
    {
        self.rom.len()
    }

    /// Reads the byte at any address; every address is legal to read.
    pub fn read_byte(&self, addr: u16) -> (b: u8)
        requires
            self.wf(),
        ensures
            b == self.spec_read(addr),
    {
        if addr < 0x2000 {
            self.rom.read_byte(addr)
        } else if addr < 0x2400 {
            self.wram.read_byte(addr - 0x2000)
        } else if addr < 0x4000 {
            self.vram.read_byte(addr - 0x2400)
        } else {
            0
        }
    }

    /// Writes one byte. A write into the ROM region is rejected with
    /// `WriteToROM` and changes nothing; a write to an unmapped address
    /// succeeds and changes nothing; a write into RAM replaces the byte.
    pub fn write_byte(&mut self, addr: u16, value: u8) -> (r: Result<(), EmulateError>)
        requires
            old(self).wf(),
        ensures
            final(self).wf(),
            bus_write_rel(*old(self), *final(self), addr, value, r),
            addr < 0x2000 ==> *final(self) == *old(self),
    {
        if addr < 0x2000 {
            Err(EmulateError::WriteToROM)
        } else if addr < 0x2400 {
            self.wram.write_byte(addr - 0x2000, value);
            Ok(())
        } else if addr < 0x4000 {
            self.vram.write_byte(addr - 0x2400, value);
            Ok(())
        } else {
            Ok(())
        }
    }
}

/// A write to any address in the ROM region returns `WriteToROM`, and
/// every byte of memory reads as it did before.
pub proof fn lemma_write_to_rom_rejected(
    m0: Interconnect,
    m1: Interconnect,
    addr: u16,
    value: u8,
    r: Result<(), EmulateError>,
)
    requires
        addr < 0x2000,
        bus_write_rel(m0, m1, addr, value, r),
    ensures
        r == Err::<(), EmulateError>(EmulateError::WriteToROM),
        forall|a: u16| m1.spec_read(a) == m0.spec_read(a),
{
}

/// A byte written to a mapped RAM address is the byte read back from it.
pub proof fn lemma_write_then_read(m0: Interconnect, m1: Interconnect, addr: u16, value: u8)
    requires
        is_ram(addr),
        mem_written(m0, m1, addr, value),
    ensures
        m1.spec_read(addr) == value,
{
}

} // verus!
