//! A decoded instruction: an opcode together with its immediate bytes.

use vstd::prelude::*;

use crate::i8080::error::EmulateError;
use crate::opcode::{spec_size, spec_size_bytes, Opcode, OpcodeSize};

verus! {

/// The immediate bytes following an opcode: none, one, or two. For a
/// two-byte immediate, `first` holds the high byte of the decoded address
/// and `second` the low byte.
#[derive(Clone, Copy, Debug, PartialEq, Eq)]
pub struct InstructionData {
    pub first: Option<u8>,
    pub second: Option<u8>,
}

/// The 16-bit address carried by a two-byte immediate.
pub open spec fn spec_data_addr(d: InstructionData) -> Option<u16> {
    if d.first is Some && d.second is Some {
        Some(crate::i8080::spec_concat(d.first->0, d.second->0))
    } else {
        None
    }
}

impl InstructionData {
    /// Builds immediate data; a lone second byte is moved into first place.
    pub fn new(first: Option<u8>, second: Option<u8>) -> (d: InstructionData)
        ensures
            first is None && second is Some ==> d == (InstructionData {
                first: second,
                second: None,
            }),
            !(first is None && second is Some) ==> d == (InstructionData { first, second }),
    {
        match (first, second) {
            (None, Some(s)) => InstructionData { first: Some(s), second: None },
            (_, _) => InstructionData { first, second },
        }
    }

    /// The first immediate byte, if any.
    pub fn first(&self) -> (r: Option<u8>)
        ensures
            r == self.first,
    {
        self.first
    }

    /// The address formed from a two-byte immediate, high byte first.
    pub fn addr(&self) -> (r: Option<u16>)
        ensures
            r == spec_data_addr(*self),
    {
        if let (Some(h), Some(l)) = self.tuple() {
            return Some(crate::i8080::concat_bytes(h, l));
        }
        None
    }

    /// Both immediate bytes as a pair.
    pub fn tuple(&self) -> (r: (Option<u8>, Option<u8>))
        ensures
            r == (self.first, self.second),
    {
        (self.first, self.second)
    }
}

/// A decoded operation together with the immediate bytes that followed it.
#[derive(Clone, Copy, Debug, PartialEq, Eq)]
pub struct Instruction {
    pub opcode: Opcode,
    pub data: InstructionData,
}

impl Instruction {
    /// An instruction of a single opcode byte; refused for opcodes that
    /// take immediate data.
    pub fn new_unary(opcode: Opcode) -> (r: Result<Instruction, EmulateError>)
        ensures
            spec_size(opcode) == OpcodeSize::Unary ==> r == Ok::<Instruction, EmulateError>(
                Instruction { opcode, data: InstructionData { first: None, second: None } },
            ),
            spec_size(opcode) != OpcodeSize::Unary ==> r == Err::<Instruction, EmulateError>(
                EmulateError::InvalidInstructionData {
                    opcode,
                    data: InstructionData { first: None, second: None },
                },
            ),
    {
        let data = InstructionData::new(None, None);
        if let OpcodeSize::Unary = opcode.size() {
            Ok(Instruction { opcode, data })
        } else {
            Err(EmulateError::InvalidInstructionData { opcode, data })
        }
    }

    /// An instruction of an opcode byte and one immediate byte; refused
    /// for opcodes of any other size.
    pub fn new_binary(opcode: Opcode, data: u8) -> (r: Result<Instruction, EmulateError>)
        ensures
            spec_size(opcode) == OpcodeSize::Binary ==> r == Ok::<Instruction, EmulateError>(
                Instruction { opcode, data: InstructionData { first: Some(data), second: None } },
            ),
            spec_size(opcode) != OpcodeSize::Binary ==> r == Err::<Instruction, EmulateError>(
                EmulateError::InvalidInstructionData {
                    opcode,
                    data: InstructionData { first: Some(data), second: None },
                },
            ),
    {
        let data = InstructionData::new(Some(data), None);
        if let OpcodeSize::Binary = opcode.size() {
            Ok(Instruction { opcode, data })
        } else {
            Err(EmulateError::InvalidInstructionData { opcode, data })
        }
    }

    /// An instruction of an opcode byte and a two-byte address; refused
    /// for opcodes of any other size. The address is stored as its high
    /// and low bytes.
    pub fn new_trinary(opcode: Opcode, addr: u16) -> (r: Result<Instruction, EmulateError>)
        ensures
            spec_size(opcode) == OpcodeSize::Trinary ==> r == Ok::<Instruction, EmulateError>(
                Instruction {
                    opcode,
                    data: InstructionData {
                        first: Some((addr / 256) as u8),
                        second: Some((addr % 256) as u8),
                    },
                },
            ),
            spec_size(opcode) != OpcodeSize::Trinary ==> r == Err::<Instruction, EmulateError>(
                EmulateError::InvalidInstructionData {
                    opcode,
                    data: InstructionData {
                        first: Some((addr / 256) as u8),
                        second: Some((addr % 256) as u8),
                    },
                },
            ),
    {
        let (h, l) = crate::i8080::split_bytes(addr);
        let data = InstructionData::new(Some(h), Some(l));
        if let OpcodeSize::Trinary = opcode.size() {
            Ok(Instruction { opcode, data })
        } else {
            Err(EmulateError::InvalidInstructionData { opcode, data })
        }
    }

    /// The instruction's length in bytes: 1, 2 or 3 by the opcode's size.
    pub fn len(&self) -> (n: u16)
        ensures
            n == spec_size_bytes(self.opcode),
    {
        match self.opcode.size() {
            OpcodeSize::Unary => 1,
            OpcodeSize::Binary => 2,
            OpcodeSize::Trinary => 3,
        }
    }

    /// The decoded opcode.
    pub fn opcode(&self) -> (op: Opcode)
        ensures
            op == self.opcode,
    {
        self.opcode
    }

    /// The immediate bytes.
    pub fn data(&self) -> (d: InstructionData)
        ensures
            d == self.data,
    {
        self.data
    }
}

} // verus!
