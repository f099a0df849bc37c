//! A walker over a raw program image that decodes one instruction at a
//! time, for producing listings.

use vstd::prelude::*;

use crate::instruction::{Instruction, InstructionData};
use crate::opcode::{spec_decode, spec_size, spec_size_bytes, Opcode, OpcodeSize};

verus! {

/// A cursor over a program image of at most 64 KiB, decoding the
/// instruction under it on demand.
#[derive(Debug)]
pub struct Disassembler {
    pub pc: u16,
    pub buf: Vec<u8>,
}

/// The byte at an offset of the image, zero beyond its end, as the
/// engine's fetcher would read it from a short ROM.
pub open spec fn spec_buf_read(buf: Seq<u8>, addr: u16) -> u8 {
    if addr < buf.len() {
        buf[addr as int]
    } else {
        0
    }
}

/// The instruction encoded at an offset of the image: the opcode byte,
/// then its immediates, read in order; a two-byte immediate is
/// little-endian, so the later byte is the address's high byte.
pub open spec fn spec_disassemble(buf: Seq<u8>, pc: u16) -> Instruction {
    let op = spec_decode(spec_buf_read(buf, pc));
    let pc1 = ((pc + 1) % 0x10000) as u16;
    let pc2 = ((pc + 2) % 0x10000) as u16;
    match spec_size(op) {
        OpcodeSize::Unary => Instruction {
            opcode: op,
            data: InstructionData { first: None, second: None },
        },
        OpcodeSize::Binary => Instruction {
            opcode: op,
            data: InstructionData { first: Some(spec_buf_read(buf, pc1)), second: None },
        },
        OpcodeSize::Trinary => Instruction {
            opcode: op,
            data: InstructionData {
                first: Some(spec_buf_read(buf, pc2)),
                second: Some(spec_buf_read(buf, pc1)),
            },
        },
    }
}

impl Disassembler {
    /// A cursor at the start of a program image.
    pub fn new(buf: Vec<u8>) -> (d: Disassembler)
        requires
            buf@.len() <= 0x10000,
        ensures
            d.pc == 0,
            d.buf@ == buf@,
    {
        Disassembler { pc: 0, buf }
    }

    /// Moves the cursor to an offset.
    pub fn update_pc(&mut self, addr: u16)
        ensures
            *final(self) == (Disassembler { pc: addr, ..*old(self) }),
    {
        self.pc = addr;
    }

    /// The cursor's offset.
    pub fn pc(&self) -> (r: u16)
        ensures
            r == self.pc,
    {
        self.pc
    }

    /// The image byte at an offset within the image.
    pub fn value_at(&self, addr: u16) -> (b: u8)
        requires
            addr < self.buf@.len(),
        ensures
            b == self.buf@[addr as int],
    {
        self.buf[addr as usize]
    }

    /// Decodes the instruction under the cursor and moves past it;
    /// `None` once the cursor has left the image. Immediate bytes past
    /// the image's end read as zero.
    pub fn next_instruction(&mut self) -> (r: Option<Instruction>)
        ensures
            old(self).pc as int >= old(self).buf@.len() ==> r is None && *final(self) == *old(self),
            (old(self).pc as int) < old(self).buf@.len() ==> r == Some(
                spec_disassemble(old(self).buf@, old(self).pc),
            ) && *final(self) == (Disassembler {
                pc: ((old(self).pc + spec_size_bytes(
                    spec_disassemble(old(self).buf@, old(self).pc).opcode,
                )) % 0x10000) as u16,
                ..*old(self)
            }),
    {
        if self.pc as usize >= self.buf.len() {
            return None;
        }
        let pc = self.pc;
        let opcode = Opcode::decode(self.buf[pc as usize]);
        let instruction = match opcode.size() {
            OpcodeSize::Unary => Instruction {
                opcode,
                data: InstructionData { first: None, second: None },
            },
            OpcodeSize::Binary => {
                let data = self.read_at(wrapping_inc(pc));
                Instruction { opcode, data: InstructionData { first: Some(data), second: None } }
            },
            OpcodeSize::Trinary => {
                let data_low = self.read_at(wrapping_inc(pc));
                let data_high = self.read_at(wrapping_inc(wrapping_inc(pc)));
                Instruction {
                    opcode,
                    data: InstructionData { first: Some(data_high), second: Some(data_low) },
                }
            },
        };
        let len = instruction.len();
        self.pc = ((pc as u32 + len as u32) % 0x10000) as u16;
        Some(instruction)
    }

    /// The image byte at an offset, zero beyond the image's end.
    fn read_at(&self, addr: u16) -> (b: u8)
        ensures
            b == spec_buf_read(self.buf@, addr),
    {
        if (addr as usize) < self.buf.len() {
            self.buf[addr as usize]
        } else {
            0
        }
    }
}

/// The next offset, wrapping around the 64 KiB image.
fn wrapping_inc(v: u16) -> (r: u16)
    ensures
        r == ((v + 1) % 0x10000) as u16,
{
    if v == 0xffff {
        0
    } else {
        v + 1
    }
}

} // verus!
