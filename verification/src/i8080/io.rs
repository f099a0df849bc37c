//! The port instructions. Ports are an 8-bit-addressed channel distinct
//! from the memory bus; the engine keeps a bank of 256 port bytes that an
//! I/O collaborator may read and feed through `write_device` and
//! `read_device`.

use vstd::prelude::*;

use crate::i8080::error::EmulateError;
use crate::i8080::I8080;
use crate::instruction::InstructionData;
use crate::opcode::Opcode;

verus! {

/// What `OUT port` does: the accumulator lands in the named port.
pub open spec fn out_rel(
    s: I8080,
    d: InstructionData,
    s1: I8080,
    r: Result<(), EmulateError>,
) -> bool {
    match d.first {
        Some(port) => r == Ok::<(), EmulateError>(()) && s1.devices@ == s.devices@.update(
            port as int,
            s.a,
        ) && s1 == (I8080 { devices: s1.devices, ..s }),
        None => r == Err::<(), EmulateError>(
            EmulateError::InvalidInstructionData { opcode: Opcode::OUT, data: d },
        ) && s1 == s,
    }
}

/// What `IN port` does: the named port's byte lands in the accumulator.
pub open spec fn input_rel(
    s: I8080,
    d: InstructionData,
    s1: I8080,
    r: Result<(), EmulateError>,
) -> bool {
    match d.first {
        Some(port) => r == Ok::<(), EmulateError>(()) && s1 == (I8080 {
            a: s.devices@[port as int],
            ..s
        }),
        None => r == Err::<(), EmulateError>(
            EmulateError::InvalidInstructionData { opcode: Opcode::IN, data: d },
        ) && s1 == s,
    }
}

impl I8080 {
    /// Replaces one port's byte; the channel an I/O collaborator reads.
    pub fn write_device(&mut self, device: u8, value: u8)
        ensures
            final(self).devices@ == old(self).devices@.update(device as int, value),
            *final(self) == (I8080 { devices: final(self).devices, ..*old(self) }),
    {
        self.devices[device as usize] = value;
    }

    /// Reads one port's byte; the channel an I/O collaborator fills.
    pub fn read_device(&self, device: u8) -> (v: u8)
        ensures
            v == self.devices@[device as int],
    {
        self.devices[device as usize]
    }

    /// `OUT port`: dispatches the accumulator to the named port.
    pub(crate) fn out(&mut self, data: InstructionData) -> (r: Result<(), EmulateError>)
        ensures
            out_rel(*old(self), data, *final(self), r),
    {
        match data.first() {
            Some(device) => {
                let a = self.a;
                self.write_device(device, a);
                Ok(())
            },
            None => Err(EmulateError::InvalidInstructionData { opcode: Opcode::OUT, data }),
        }
    }

    /// `IN port`: reads the named port into the accumulator.
    pub(crate) fn input(&mut self, data: InstructionData) -> (r: Result<(), EmulateError>)
        ensures
            input_rel(*old(self), data, *final(self), r),
    {
        match data.first() {
            Some(device) => {
                self.a = self.read_device(device);
                Ok(())
            },
            None => Err(EmulateError::InvalidInstructionData { opcode: Opcode::IN, data }),
        }
    }
}

} // verus!
