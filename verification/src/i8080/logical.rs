//! Logical instructions: AND, XOR, OR and the compares, with the 8080's
//! carry-clearing flag rules.

use vstd::prelude::*;

use crate::flags::{parity_even, ConditionalFlags};
use crate::i8080::arithmetic::{arith_flags, sub8, sub_aux_carry, sub_borrow};
use crate::i8080::error::EmulateError;
use crate::i8080::I8080;
use crate::instruction::InstructionData;
use crate::interconnect::Interconnect;
use crate::opcode::Opcode;
use crate::register::Register;

verus! {

/// The state after AND-ing `x` into the accumulator: CY clears, and the
/// auxiliary carry takes bit 3 of the OR of the operands, as the 8080's
/// AND instructions define it.
pub open spec fn spec_and_state(s: I8080, x: u8) -> I8080 {
    I8080 {
        a: s.a & x,
        flags: ConditionalFlags {
            z: (s.a & x) == 0,
            s: (s.a & x) >= 128,
            p: parity_even(s.a & x),
            cy: false,
            ac: ((s.a | x) / 8) % 2 == 1,
        },
        ..s
    }
}

/// The state after XOR-ing `x` into the accumulator: both carries clear.
pub open spec fn spec_xor_state(s: I8080, x: u8) -> I8080 {
    I8080 {
        a: s.a ^ x,
        flags: ConditionalFlags {
            z: (s.a ^ x) == 0,
            s: (s.a ^ x) >= 128,
            p: parity_even(s.a ^ x),
            cy: false,
            ac: false,
        },
        ..s
    }
}

/// The state after OR-ing `x` into the accumulator: both carries clear.
pub open spec fn spec_or_state(s: I8080, x: u8) -> I8080 {
    I8080 {
        a: s.a | x,
        flags: ConditionalFlags {
            z: (s.a | x) == 0,
            s: (s.a | x) >= 128,
            p: parity_even(s.a | x),
            cy: false,
            ac: false,
        },
        ..s
    }
}

/// The state after comparing `x` with the accumulator: the flags of the
/// subtraction `A - x`, with the accumulator left alone.
pub open spec fn spec_cmp_state(s: I8080, x: u8) -> I8080 {
    I8080 { flags: arith_flags(sub8(s.a, x, 0), sub_borrow(s.a, x, 0), sub_aux_carry(s.a, x, 0)), ..s
    }
}

/// What the register forms `ANA` / `XRA` / `ORA` / `CMP` do: the operand
/// byte (memory at (H,L) for `M`) combines with the accumulator; `SP` is
/// refused. `which` names the opcode the error reports.
pub open spec fn logical_rel(
    s: I8080,
    m: Interconnect,
    reg: Register,
    which: Opcode,
    s1: I8080,
    r: Result<(), EmulateError>,
) -> bool {
    if reg == Register::SP {
        r == Err::<(), EmulateError>(
            EmulateError::UnsupportedRegister { opcode: which, register: reg },
        ) && s1 == s
    } else {
        let x = I8080::spec_operand(s, m, reg);
        r == Ok::<(), EmulateError>(()) && s1 == (match which {
            Opcode::ANA(_) => spec_and_state(s, x),
            Opcode::XRA(_) => spec_xor_state(s, x),
            Opcode::ORA(_) => spec_or_state(s, x),
            _ => spec_cmp_state(s, x),
        })
    }
}

/// What the immediate forms `ANI` / `XRI` / `ORI` / `CPI` do.
pub open spec fn logical_imm_rel(
    s: I8080,
    d: InstructionData,
    which: Opcode,
    s1: I8080,
    r: Result<(), EmulateError>,
) -> bool {
    match d.first {
        Some(x) => r == Ok::<(), EmulateError>(()) && s1 == (match which {
            Opcode::ANI => spec_and_state(s, x),
            Opcode::XRI => spec_xor_state(s, x),
            Opcode::ORI => spec_or_state(s, x),
            _ => spec_cmp_state(s, x),
        }),
        None => r == Err::<(), EmulateError>(
            EmulateError::InvalidInstructionData { opcode: which, data: d },
        ) && s1 == s,
    }
}

impl I8080 {
    /// Sets the flags of an AND result, whose auxiliary carry is bit 3 of
    /// the OR of the operands.
    fn apply_and_flags(&mut self, value: u8, or_of_operands: u8)
        ensures
            *final(self) == (I8080 {
                flags: ConditionalFlags {
                    z: value == 0,
                    s: value >= 128,
                    p: parity_even(value),
                    cy: false,
                    ac: (or_of_operands / 8) % 2 == 1,
                },
                ..*old(self)
            }),
    {
        self.flags.set_non_carry_flags(value);
        self.flags.cy = false;
        self.flags.ac = (or_of_operands / 8) % 2 == 1;
    }

    /// Sets the flags of an XOR or OR result: both carries clear.
    fn apply_clearing_flags(&mut self, value: u8)
        ensures
            *final(self) == (I8080 {
                flags: ConditionalFlags {
                    z: value == 0,
                    s: value >= 128,
                    p: parity_even(value),
                    cy: false,
                    ac: false,
                },
                ..*old(self)
            }),
    {
        self.flags.set_non_carry_flags(value);
        self.flags.cy = false;
        self.flags.ac = false;
    }

    /// `ANA r`: AND a register or memory operand into the accumulator.
    pub(crate) fn ana(&mut self, register: Register, interconnect: &Interconnect) -> (r: Result<
        (),
        EmulateError,
    >)
        requires
            interconnect.wf(),
        ensures
            logical_rel(
                *old(self),
                *interconnect,
                register,
                Opcode::ANA(register),
                *final(self),
                r,
            ),
    {
        match self.operand(register, interconnect) {
            Some(x) => {
                let a = self.a;
                self.a = a & x;
                self.apply_and_flags(a & x, a | x);
                Ok(())
            },
            None => Err(
                EmulateError::UnsupportedRegister { opcode: Opcode::ANA(register), register },
            ),
        }
    }

    /// `XRA r`: XOR a register or memory operand into the accumulator.
    pub(crate) fn xra(&mut self, register: Register, interconnect: &Interconnect) -> (r: Result<
        (),
        EmulateError,
    >)
        requires
            interconnect.wf(),
        ensures
            logical_rel(
                *old(self),
                *interconnect,
                register,
                Opcode::XRA(register),
                *final(self),
                r,
            ),
    {
        match self.operand(register, interconnect) {
            Some(x) => {
                let a = self.a;
                self.a = a ^ x;
                self.apply_clearing_flags(a ^ x);
                Ok(())
            },
            None => Err(
                EmulateError::UnsupportedRegister { opcode: Opcode::XRA(register), register },
            ),
        }
    }

    /// `ORA r`: OR a register or memory operand into the accumulator.
    pub(crate) fn ora(&mut self, register: Register, interconnect: &Interconnect) -> (r: Result<
        (),
        EmulateError,
    >)
        requires
            interconnect.wf(),
        ensures
            logical_rel(
                *old(self),
                *interconnect,
                register,
                Opcode::ORA(register),
                *final(self),
                r,
            ),
    {
        match self.operand(register, interconnect) {
            Some(x) => {
                let a = self.a;
                self.a = a | x;
                self.apply_clearing_flags(a | x);
                Ok(())
            },
            None => Err(
                EmulateError::UnsupportedRegister { opcode: Opcode::ORA(register), register },
            ),
        }
    }

    /// `CMP r`: compare a register or memory operand with the
    /// accumulator; only the flags move.
    pub(crate) fn cmp(&mut self, register: Register, interconnect: &Interconnect) -> (r: Result<
        (),
        EmulateError,
    >)
        requires
            interconnect.wf(),
        ensures
            logical_rel(
                *old(self),
                *interconnect,
                register,
                Opcode::CMP(register),
                *final(self),
                r,
            ),
    {
        match self.operand(register, interconnect) {
            Some(x) => {
                self.apply_compare(x);
                Ok(())
            },
            None => Err(
                EmulateError::UnsupportedRegister { opcode: Opcode::CMP(register), register },
            ),
        }
    }

    /// Sets the flags of the comparison `A - x` without storing it.
    fn apply_compare(&mut self, x: u8)
        ensures
            *final(self) == spec_cmp_state(*old(self), x),
    {
        let a = self.a;
        let t: u16 = (a as u16 + 256 - x as u16) % 256;
        self.flags.set_non_carry_flags(t as u8);
        self.flags.cy = a < x;
        self.flags.ac = a % 16 >= x % 16;
    }

    /// `ANI d8`: AND the immediate byte into the accumulator.
    pub(crate) fn ani(&mut self, data: InstructionData) -> (r: Result<(), EmulateError>)
        ensures
            logical_imm_rel(*old(self), data, Opcode::ANI, *final(self), r),
    {
        match data.first() {
            Some(x) => {
                let a = self.a;
                self.a = a & x;
                self.apply_and_flags(a & x, a | x);
                Ok(())
            },
            None => Err(EmulateError::InvalidInstructionData { opcode: Opcode::ANI, data }),
        }
    }

    /// `XRI d8`: XOR the immediate byte into the accumulator.
    pub(crate) fn xri(&mut self, data: InstructionData) -> (r: Result<(), EmulateError>)
        ensures
            logical_imm_rel(*old(self), data, Opcode::XRI, *final(self), r),
    {
        match data.first() {
            Some(x) => {
                let a = self.a;
                self.a = a ^ x;
                self.apply_clearing_flags(a ^ x);
                Ok(())
            },
            None => Err(EmulateError::InvalidInstructionData { opcode: Opcode::XRI, data }),
        }
    }

    /// `ORI d8`: OR the immediate byte into the accumulator.
    pub(crate) fn ori(&mut self, data: InstructionData) -> (r: Result<(), EmulateError>)
        ensures
            logical_imm_rel(*old(self), data, Opcode::ORI, *final(self), r),
    {
        match data.first() {
            Some(x) => {
                let a = self.a;
                self.a = a | x;
                self.apply_clearing_flags(a | x);
                Ok(())
            },
            None => Err(EmulateError::InvalidInstructionData { opcode: Opcode::ORI, data }),
        }
    }

    /// `CPI d8`: compare the immediate byte with the accumulator; only
    /// the flags move.
    pub(crate) fn cpi(&mut self, data: InstructionData) -> (r: Result<(), EmulateError>)
        ensures
            logical_imm_rel(*old(self), data, Opcode::CPI, *final(self), r),
    {
        match data.first() {
            Some(x) => {
                self.apply_compare(x);
                Ok(())
            },
            None => Err(EmulateError::InvalidInstructionData { opcode: Opcode::CPI, data }),
        }
    }
}

} // verus!
