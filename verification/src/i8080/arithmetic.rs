//! Arithmetic instructions: 8-bit add and subtract with their flag
//! derivation, 16-bit pair arithmetic, and the accumulator rotates.

use vstd::prelude::*;

use crate::flags::{parity_even, ConditionalFlags};
use crate::i8080::error::EmulateError;
use crate::i8080::{
    concat_bytes, spec_concat, spec_high, spec_low, split_bytes, wrap_dec16, wrap_inc16, I8080,
};
use crate::instruction::InstructionData;
use crate::interconnect::{mem_written, same_mem, Interconnect};
use crate::opcode::Opcode;
use crate::register::Register;

verus! {

/// The 8-bit sum of two bytes and a carry-in, wrapped modulo 256.
pub open spec fn add8(a: u8, b: u8, c: u8) -> u8 {
    ((a + b + c) % 256) as u8
}

/// Whether adding two bytes and a carry-in carries out of bit 7.
pub open spec fn add_carry(a: u8, b: u8, c: u8) -> bool {
    a + b + c > 255
}

/// Whether adding two bytes and a carry-in carries out of bit 3.
pub open spec fn add_aux_carry(a: u8, b: u8, c: u8) -> bool {
    a % 16 + b % 16 + c > 15
}

/// The 8-bit difference `a - b - c`, wrapped modulo 256.
pub open spec fn sub8(a: u8, b: u8, c: u8) -> u8 {
    ((a + 256 - b - c) % 256) as u8
}

/// Whether subtracting borrows: the subtrahend and borrow-in exceed the
/// minuend. The 8080 reports this in CY after a subtract.
pub open spec fn sub_borrow(a: u8, b: u8, c: u8) -> bool {
    a < b + c
}

/// The auxiliary-carry flag after a subtract: the two's-complement
/// addition inside the ALU carries out of bit 3 exactly when the low
/// nibble does not borrow.
pub open spec fn sub_aux_carry(a: u8, b: u8, c: u8) -> bool {
    a % 16 >= b % 16 + c
}

/// Zero, sign and parity from an 8-bit result, with the carries given.
pub open spec fn arith_flags(v: u8, cy: bool, ac: bool) -> ConditionalFlags {
    ConditionalFlags { z: v == 0, s: v >= 128, p: parity_even(v), cy, ac }
}

/// The state after adding `x` and carry-in `c` into the accumulator.
pub open spec fn spec_add_state(s: I8080, x: u8, c: u8) -> I8080 {
    I8080 {
        a: add8(s.a, x, c),
        flags: arith_flags(add8(s.a, x, c), add_carry(s.a, x, c), add_aux_carry(s.a, x, c)),
        ..s
    }
}

/// The state after subtracting `x` and borrow-in `c` from the accumulator.
pub open spec fn spec_sub_state(s: I8080, x: u8, c: u8) -> I8080 {
    I8080 {
        a: sub8(s.a, x, c),
        flags: arith_flags(sub8(s.a, x, c), sub_borrow(s.a, x, c), sub_aux_carry(s.a, x, c)),
        ..s
    }
}

/// After adding `v` into the accumulator with no carry-in: the
/// accumulator takes the sum modulo 256, CY reports the carry out of
/// bit 7, and zero, sign and parity describe the stored result.
pub proof fn lemma_add_flags(s: I8080, v: u8)
    ensures
        spec_add_state(s, v, 0).a == (s.a + v) % 256,
        spec_add_state(s, v, 0).flags.cy == (s.a + v > 255),
        spec_add_state(s, v, 0).flags.z == (spec_add_state(s, v, 0).a == 0),
        spec_add_state(s, v, 0).flags.s == (spec_add_state(s, v, 0).a >= 128),
        spec_add_state(s, v, 0).flags.p == parity_even(spec_add_state(s, v, 0).a),
{
}

/// After subtracting `v` from the accumulator with no borrow-in: the
/// accumulator takes the difference modulo 256, CY reports the borrow —
/// set exactly when `v` exceeds the old accumulator — and zero, sign and
/// parity describe the stored result.
pub proof fn lemma_sub_flags(s: I8080, v: u8)
    ensures
        spec_sub_state(s, v, 0).a == (s.a + 256 - v) % 256,
        spec_sub_state(s, v, 0).flags.cy == (s.a < v),
        spec_sub_state(s, v, 0).flags.z == (spec_sub_state(s, v, 0).a == 0),
        spec_sub_state(s, v, 0).flags.s == (spec_sub_state(s, v, 0).a >= 128),
        spec_sub_state(s, v, 0).flags.p == parity_even(spec_sub_state(s, v, 0).a),
{
}

/// The state with a register pair (or SP) replaced by a 16-bit value.
pub open spec fn spec_with_pair(s: I8080, rp: Register, v: u16) -> I8080 {
    match rp {
        Register::B => I8080 { b: spec_high(v), c: spec_low(v), ..s },
        Register::D => I8080 { d: spec_high(v), e: spec_low(v), ..s },
        Register::H => I8080 { h: spec_high(v), l: spec_low(v), ..s },
        Register::SP => I8080 { sp: v, ..s },
        _ => s,
    }
}

/// What `INX rp` does: the pair steps up by one, wrapping; no flags move.
pub open spec fn inx_rel(s: I8080, rp: Register, s1: I8080, r: Result<(), EmulateError>) -> bool {
    match rp {
        Register::B | Register::D | Register::H | Register::SP => r == Ok::<(), EmulateError>(())
            && s1 == spec_with_pair(s, rp, wrap_inc16(s.spec_pair(rp))),
        _ => r == Err::<(), EmulateError>(
            EmulateError::UnsupportedRegister { opcode: Opcode::INX(rp), register: rp },
        ) && s1 == s,
    }
}

/// What `DCX rp` does: the pair steps down by one, wrapping; no flags move.
pub open spec fn dcx_rel(s: I8080, rp: Register, s1: I8080, r: Result<(), EmulateError>) -> bool {
    match rp {
        Register::B | Register::D | Register::H | Register::SP => r == Ok::<(), EmulateError>(())
            && s1 == spec_with_pair(s, rp, wrap_dec16(s.spec_pair(rp))),
        _ => r == Err::<(), EmulateError>(
            EmulateError::UnsupportedRegister { opcode: Opcode::DCX(rp), register: rp },
        ) && s1 == s,
    }
}

/// What `ADD r` / `ADC r` do: the operand (a byte register, or memory at
/// (H,L) for `M`) plus the carry for `ADC` is added into the accumulator,
/// and all five flags are derived; `SP` is refused.
pub open spec fn add_rel(
    s: I8080,
    m: Interconnect,
    reg: Register,
    with_carry: bool,
    s1: I8080,
    r: Result<(), EmulateError>,
) -> bool {
    if reg == Register::SP {
        r == Err::<(), EmulateError>(
            EmulateError::UnsupportedRegister {
                opcode: if with_carry {
                    Opcode::ADC(reg)
                } else {
                    Opcode::ADD(reg)
                },
                register: reg,
            },
        ) && s1 == s
    } else {
        r == Ok::<(), EmulateError>(()) && s1 == spec_add_state(
            s,
            I8080::spec_operand(s, m, reg),
            carry_in(s, with_carry),
        )
    }
}

/// What `SUB r` / `SBB r` do, with CY reporting the borrow.
pub open spec fn sub_rel(
    s: I8080,
    m: Interconnect,
    reg: Register,
    with_borrow: bool,
    s1: I8080,
    r: Result<(), EmulateError>,
) -> bool {
    if reg == Register::SP {
        r == Err::<(), EmulateError>(
            EmulateError::UnsupportedRegister {
                opcode: if with_borrow {
                    Opcode::SBB(reg)
                } else {
                    Opcode::SUB(reg)
                },
                register: reg,
            },
        ) && s1 == s
    } else {
        r == Ok::<(), EmulateError>(()) && s1 == spec_sub_state(
            s,
            I8080::spec_operand(s, m, reg),
            carry_in(s, with_borrow),
        )
    }
}

/// The carry taken in by `ADC`, `ACI`, `SBB` and `SBI`: the CY flag as
/// the value one, and zero for the plain forms.
pub open spec fn carry_in(s: I8080, with_carry: bool) -> u8 {
    if with_carry && s.flags.cy {
        1
    } else {
        0
    }
}

/// What `ADI` / `ACI` do: the immediate byte is added into the
/// accumulator.
pub open spec fn adi_rel(
    s: I8080,
    d: InstructionData,
    with_carry: bool,
    s1: I8080,
    r: Result<(), EmulateError>,
) -> bool {
    match d.first {
        Some(v) => r == Ok::<(), EmulateError>(()) && s1 == spec_add_state(
            s,
            v,
            carry_in(s, with_carry),
        ),
        None => r == Err::<(), EmulateError>(
            EmulateError::InvalidInstructionData {
                opcode: if with_carry {
                    Opcode::ACI
                } else {
                    Opcode::ADI
                },
                data: d,
            },
        ) && s1 == s,
    }
}

/// What `SUI` / `SBI` do: the immediate byte is subtracted from the
/// accumulator.
pub open spec fn sui_rel(
    s: I8080,
    d: InstructionData,
    with_borrow: bool,
    s1: I8080,
    r: Result<(), EmulateError>,
) -> bool {
    match d.first {
        Some(v) => r == Ok::<(), EmulateError>(()) && s1 == spec_sub_state(
            s,
            v,
            carry_in(s, with_borrow),
        ),
        None => r == Err::<(), EmulateError>(
            EmulateError::InvalidInstructionData {
                opcode: if with_borrow {
                    Opcode::SBI
                } else {
                    Opcode::SUI
                },
                data: d,
            },
        ) && s1 == s,
    }
}

/// What `INR r` does: the register or memory byte steps up by one; all
/// flags but CY are derived from the result.
pub open spec fn inr_rel(
    s: I8080,
    m: Interconnect,
    reg: Register,
    s1: I8080,
    m1: Interconnect,
    r: Result<(), EmulateError>,
) -> bool {
    if reg == Register::SP {
        r == Err::<(), EmulateError>(
            EmulateError::UnsupportedRegister { opcode: Opcode::INR(reg), register: reg },
        ) && s1 == s && same_mem(m, m1)
    } else if reg == Register::M {
        let addr = s.spec_hl();
        let v = m.spec_read(addr);
        if addr < 0x2000 {
            r == Err::<(), EmulateError>(EmulateError::WriteToROM) && s1 == s && same_mem(m, m1)
        } else {
            r == Ok::<(), EmulateError>(()) && mem_written(m, m1, addr, add8(v, 1, 0)) && s1 == (
            I8080 { flags: inr_flags(s, v), ..s })
        }
    } else {
        let v = s.spec_reg8(reg);
        r == Ok::<(), EmulateError>(()) && same_mem(m, m1) && s1 == (I8080 {
            flags: inr_flags(s, v),
            ..s.spec_with_reg8(reg, add8(v, 1, 0))
        })
    }
}

/// The flags after `INR` of a byte that held `v`: CY is not affected.
pub open spec fn inr_flags(s: I8080, v: u8) -> ConditionalFlags {
    arith_flags(add8(v, 1, 0), s.flags.cy, add_aux_carry(v, 1, 0))
}

/// What `DCR r` does: the register or memory byte steps down by one; all
/// flags but CY are derived from the result.
pub open spec fn dcr_rel(
    s: I8080,
    m: Interconnect,
    reg: Register,
    s1: I8080,
    m1: Interconnect,
    r: Result<(), EmulateError>,
) -> bool {
    if reg == Register::SP {
        r == Err::<(), EmulateError>(
            EmulateError::UnsupportedRegister { opcode: Opcode::DCR(reg), register: reg },
        ) && s1 == s && same_mem(m, m1)
    } else if reg == Register::M {
        let addr = s.spec_hl();
        let v = m.spec_read(addr);
        if addr < 0x2000 {
            r == Err::<(), EmulateError>(EmulateError::WriteToROM) && s1 == s && same_mem(m, m1)
        } else {
            r == Ok::<(), EmulateError>(()) && mem_written(m, m1, addr, sub8(v, 1, 0)) && s1 == (
            I8080 { flags: dcr_flags(s, v), ..s })
        }
    } else {
        let v = s.spec_reg8(reg);
        r == Ok::<(), EmulateError>(()) && same_mem(m, m1) && s1 == (I8080 {
            flags: dcr_flags(s, v),
            ..s.spec_with_reg8(reg, sub8(v, 1, 0))
        })
    }
}

/// The flags after `DCR` of a byte that held `v`: CY is not affected.
pub open spec fn dcr_flags(s: I8080, v: u8) -> ConditionalFlags {
    arith_flags(sub8(v, 1, 0), s.flags.cy, sub_aux_carry(v, 1, 0))
}

/// What `DAD rp` does: the pair is added into (H,L); only CY moves, set
/// to the carry out of the 16-bit addition.
pub open spec fn dad_rel(s: I8080, rp: Register, s1: I8080, r: Result<(), EmulateError>) -> bool {
    match rp {
        Register::B | Register::D | Register::H | Register::SP => {
            let sum = s.spec_hl() + s.spec_pair(rp);
            r == Ok::<(), EmulateError>(()) && s1 == (I8080 {
                h: spec_high((sum % 0x10000) as u16),
                l: spec_low((sum % 0x10000) as u16),
                flags: ConditionalFlags { cy: sum > 0xffff, ..s.flags },
                ..s
            })
        },
        _ => r == Err::<(), EmulateError>(
            EmulateError::UnsupportedRegister { opcode: Opcode::DAD(rp), register: rp },
        ) && s1 == s,
    }
}

/// The accumulator rotated left once; CY receives the bit that left bit 7.
pub open spec fn spec_rlc(s: I8080) -> I8080 {
    I8080 {
        a: ((s.a % 128) * 2 + s.a / 128) as u8,
        flags: ConditionalFlags { cy: s.a >= 128, ..s.flags },
        ..s
    }
}

/// The accumulator rotated right once; CY receives the bit that left bit 0.
pub open spec fn spec_rrc(s: I8080) -> I8080 {
    I8080 {
        a: (s.a / 2 + (s.a % 2) * 128) as u8,
        flags: ConditionalFlags { cy: s.a % 2 == 1, ..s.flags },
        ..s
    }
}

/// The accumulator rotated left through the carry bit.
pub open spec fn spec_ral(s: I8080) -> I8080 {
    I8080 {
        a: ((s.a % 128) * 2 + (if s.flags.cy {
            1int
        } else {
            0int
        })) as u8,
        flags: ConditionalFlags { cy: s.a >= 128, ..s.flags },
        ..s
    }
}

/// The accumulator rotated right through the carry bit.
pub open spec fn spec_rar(s: I8080) -> I8080 {
    I8080 {
        a: (s.a / 2 + (if s.flags.cy {
            128int
        } else {
            0int
        })) as u8,
        flags: ConditionalFlags { cy: s.a % 2 == 1, ..s.flags },
        ..s
    }
}

impl I8080 {
    /// The byte an opcode's register operand names: a byte register, or
    /// the memory byte at (H,L) for `M`.
    pub open spec fn spec_operand(s: I8080, m: Interconnect, reg: Register) -> u8
        recommends
            reg != Register::SP,
    {
        if reg == Register::M {
            m.spec_read(s.spec_hl())
        } else {
            s.spec_reg8(reg)
        }
    }

    /// Fetches an instruction's register operand; `None` for `SP`, which
    /// no byte-operand instruction accepts.
    pub(crate) fn operand(&self, reg: Register, interconnect: &Interconnect) -> (r: Option<u8>)
        requires
            interconnect.wf(),
        ensures
            reg == Register::SP ==> r is None,
            reg != Register::SP ==> r == Some(I8080::spec_operand(*self, *interconnect, reg)),
    {
        match reg {
            Register::SP => None,
            Register::M => Some(interconnect.read_byte(self.m())),
            _r => Some(
                match self.get_8bit_register(_r) {
                    Ok(v) => v,
                    Err(_) => 0,
                },
            ),
        }
    }

    /// Adds two bytes and a carry-in and derives all five flags.
    fn apply_add(&mut self, x: u8, c: u8)
        requires
            c <= 1,
        ensures
            *final(self) == spec_add_state(*old(self), x, c),
    {
        let a = self.a;
        let t: u16 = a as u16 + x as u16 + c as u16;
        let result: u8 = (t % 256) as u8;
        self.flags.set_non_carry_flags(result);
        self.flags.cy = t > 255;
        self.flags.ac = a % 16 + x % 16 + c > 15;
        self.a = result;
    }

    /// Subtracts a byte and a borrow-in and derives all five flags.
    fn apply_sub(&mut self, x: u8, c: u8)
        requires
            c <= 1,
        ensures
            *final(self) == spec_sub_state(*old(self), x, c),
    {
        let a = self.a;
        let t: u16 = (a as u16 + 256 - x as u16 - c as u16) % 256;
        let result: u8 = t as u8;
        self.flags.set_non_carry_flags(result);
        self.flags.cy = (a as u16) < x as u16 + c as u16;
        self.flags.ac = a % 16 >= x % 16 + c;
        self.a = result;
    }

    /// `INX rp`: steps a register pair up by one.
    pub(crate) fn inx(&mut self, register: Register) -> (r: Result<(), EmulateError>)
        ensures
            inx_rel(*old(self), register, *final(self), r),
    {
        match register {
            Register::B => {
                let v = inc16(concat_bytes(self.b, self.c));
                let (high, low) = split_bytes(v);
                self.b = high;
                self.c = low;
                Ok(())
            },
            Register::D => {
                let v = inc16(concat_bytes(self.d, self.e));
                let (high, low) = split_bytes(v);
                self.d = high;
                self.e = low;
                Ok(())
            },
            Register::H => {
                let v = inc16(concat_bytes(self.h, self.l));
                let (high, low) = split_bytes(v);
                self.h = high;
                self.l = low;
                Ok(())
            },
            Register::SP => {
                self.sp = inc16(self.sp);
                Ok(())
            },
            _ => Err(
                EmulateError::UnsupportedRegister { opcode: Opcode::INX(register), register },
            ),
        }
    }

    /// `DCX rp`: steps a register pair down by one.
    pub(crate) fn dcx(&mut self, register: Register) -> (r: Result<(), EmulateError>)
        ensures
            dcx_rel(*old(self), register, *final(self), r),
    {
        match register {
            Register::B => {
                let v = dec16(concat_bytes(self.b, self.c));
                let (high, low) = split_bytes(v);
                self.b = high;
                self.c = low;
                Ok(())
            },
            Register::D => {
                let v = dec16(concat_bytes(self.d, self.e));
                let (high, low) = split_bytes(v);
                self.d = high;
                self.e = low;
                Ok(())
            },
            Register::H => {
                let v = dec16(concat_bytes(self.h, self.l));
                let (high, low) = split_bytes(v);
                self.h = high;
                self.l = low;
                Ok(())
            },
            Register::SP => {
                self.sp = dec16(self.sp);
                Ok(())
            },
            _ => Err(
                EmulateError::UnsupportedRegister { opcode: Opcode::DCX(register), register },
            ),
        }
    }

    /// `INR r`: steps a register or the memory byte at (H,L) up by one.
    pub(crate) fn inr(&mut self, register: Register, interconnect: &mut Interconnect) -> (r: Result<
        (),
        EmulateError,
    >)
        requires
            old(interconnect).wf(),
        ensures
            final(interconnect).wf(),
            inr_rel(*old(self), *old(interconnect), register, *final(self), *final(interconnect), r),
            r is Err ==> *final(interconnect) == *old(interconnect),
    {
        match register {
            Register::SP => Err(
                EmulateError::UnsupportedRegister { opcode: Opcode::INR(register), register },
            ),
            Register::M => {
                let addr = self.m();
                if addr < 0x2000 {
                    return Err(EmulateError::WriteToROM);
                }
                let v = interconnect.read_byte(addr);
                let nv: u8 = ((v as u16 + 1) % 256) as u8;
                // The guard above keeps `addr` out of ROM, so the bus
                // accepts the write.
                let _ = interconnect.write_byte(addr, nv);
                self.flags.set_non_carry_flags(nv);
                self.flags.ac = v % 16 == 15;
                Ok(())
            },
            _r => {
                let v = match self.get_8bit_register(_r) {
                    Ok(v) => v,
                    Err(_) => 0,
                };
                let nv: u8 = ((v as u16 + 1) % 256) as u8;
                self.set_reg8(_r, nv);
                self.flags.set_non_carry_flags(nv);
                self.flags.ac = v % 16 == 15;
                Ok(())
            },
        }
    }

    /// `DCR r`: steps a register or the memory byte at (H,L) down by one.
    pub(crate) fn dcr(&mut self, register: Register, interconnect: &mut Interconnect) -> (r: Result<
        (),
        EmulateError,
    >)
        requires
            old(interconnect).wf(),
        ensures
            final(interconnect).wf(),
            dcr_rel(*old(self), *old(interconnect), register, *final(self), *final(interconnect), r),
            r is Err ==> *final(interconnect) == *old(interconnect),
    {
        match register {
            Register::SP => Err(
                EmulateError::UnsupportedRegister { opcode: Opcode::DCR(register), register },
            ),
            Register::M => {
                let addr = self.m();
                if addr < 0x2000 {
                    return Err(EmulateError::WriteToROM);
                }
                let v = interconnect.read_byte(addr);
                let nv: u8 = ((v as u16 + 255) % 256) as u8;
                // The guard above keeps `addr` out of ROM, so the bus
                // accepts the write.
                let _ = interconnect.write_byte(addr, nv);
                self.flags.set_non_carry_flags(nv);
                self.flags.ac = v % 16 >= 1;
                Ok(())
            },
            _r => {
                let v = match self.get_8bit_register(_r) {
                    Ok(v) => v,
                    Err(_) => 0,
                };
                let nv: u8 = ((v as u16 + 255) % 256) as u8;
                self.set_reg8(_r, nv);
                self.flags.set_non_carry_flags(nv);
                self.flags.ac = v % 16 >= 1;
                Ok(())
            },
        }
    }

    /// `ADD r`: adds a register or memory operand into the accumulator.
    pub(crate) fn add(&mut self, register: Register, interconnect: &Interconnect) -> (r: Result<
        (),
        EmulateError,
    >)
        requires
            interconnect.wf(),
        ensures
            add_rel(*old(self), *interconnect, register, false, *final(self), r),
    {
        match self.operand(register, interconnect) {
            Some(x) => {
                self.apply_add(x, 0);
                Ok(())
            },
            None => Err(
                EmulateError::UnsupportedRegister { opcode: Opcode::ADD(register), register },
            ),
        }
    }

    /// `ADC r`: adds a register or memory operand and the carry bit.
    pub(crate) fn adc(&mut self, register: Register, interconnect: &Interconnect) -> (r: Result<
        (),
        EmulateError,
    >)
        requires
            interconnect.wf(),
        ensures
            add_rel(*old(self), *interconnect, register, true, *final(self), r),
    {
        let c: u8 = if self.flags.cy {
            1
        } else {
            0
        };
        match self.operand(register, interconnect) {
            Some(x) => {
                self.apply_add(x, c);
                Ok(())
            },
            None => Err(
                EmulateError::UnsupportedRegister { opcode: Opcode::ADC(register), register },
            ),
        }
    }

    /// `ADI d8`: adds the immediate byte into the accumulator.
    pub(crate) fn adi(&mut self, data: InstructionData) -> (r: Result<(), EmulateError>)
        ensures
            adi_rel(*old(self), data, false, *final(self), r),
    {
        match data.first() {
            Some(v) => {
                self.apply_add(v, 0);
                Ok(())
            },
            None => Err(EmulateError::InvalidInstructionData { opcode: Opcode::ADI, data }),
        }
    }

    /// `ACI d8`: adds the immediate byte and the carry bit.
    pub(crate) fn aci(&mut self, data: InstructionData) -> (r: Result<(), EmulateError>)
        ensures
            adi_rel(*old(self), data, true, *final(self), r),
    {
        let c: u8 = if self.flags.cy {
            1
        } else {
            0
        };
        match data.first() {
            Some(v) => {
                self.apply_add(v, c);
                Ok(())
            },
            None => Err(EmulateError::InvalidInstructionData { opcode: Opcode::ACI, data }),
        }
    }

    /// `SUB r`: subtracts a register or memory operand; CY is the borrow.
    pub(crate) fn sub(&mut self, register: Register, interconnect: &Interconnect) -> (r: Result<
        (),
        EmulateError,
    >)
        requires
            interconnect.wf(),
        ensures
            sub_rel(*old(self), *interconnect, register, false, *final(self), r),
    {
        match self.operand(register, interconnect) {
            Some(x) => {
                self.apply_sub(x, 0);
                Ok(())
            },
            None => Err(
                EmulateError::UnsupportedRegister { opcode: Opcode::SUB(register), register },
            ),
        }
    }

    /// `SBB r`: subtracts a register or memory operand and the borrow bit.
    pub(crate) fn sbb(&mut self, register: Register, interconnect: &Interconnect) -> (r: Result<
        (),
        EmulateError,
    >)
        requires
            interconnect.wf(),
        ensures
            sub_rel(*old(self), *interconnect, register, true, *final(self), r),
    {
        let c: u8 = if self.flags.cy {
            1
        } else {
            0
        };
        match self.operand(register, interconnect) {
            Some(x) => {
                self.apply_sub(x, c);
                Ok(())
            },
            None => Err(
                EmulateError::UnsupportedRegister { opcode: Opcode::SBB(register), register },
            ),
        }
    }

    /// `SUI d8`: subtracts the immediate byte from the accumulator.
    pub(crate) fn sui(&mut self, data: InstructionData) -> (r: Result<(), EmulateError>)
        ensures
            sui_rel(*old(self), data, false, *final(self), r),
    {
        match data.first() {
            Some(v) => {
                self.apply_sub(v, 0);
                Ok(())
            },
            None => Err(EmulateError::InvalidInstructionData { opcode: Opcode::SUI, data }),
        }
    }

    /// `SBI d8`: subtracts the immediate byte and the borrow bit.
    pub(crate) fn sbi(&mut self, data: InstructionData) -> (r: Result<(), EmulateError>)
        ensures
            sui_rel(*old(self), data, true, *final(self), r),
    {
        let c: u8 = if self.flags.cy {
            1
        } else {
            0
        };
        match data.first() {
            Some(v) => {
                self.apply_sub(v, c);
                Ok(())
            },
            None => Err(EmulateError::InvalidInstructionData { opcode: Opcode::SBI, data }),
        }
    }

    /// `DAD rp`: adds a register pair into (H,L); only CY is affected.
    pub(crate) fn dad(&mut self, register: Register) -> (r: Result<(), EmulateError>)
        ensures
            dad_rel(*old(self), register, *final(self), r),
    {
        let addend2: u16 = match register {
            Register::B => concat_bytes(self.b, self.c),
            Register::D => concat_bytes(self.d, self.e),
            Register::H => concat_bytes(self.h, self.l),
            Register::SP => self.sp,
            _ => {
                return Err(
                    EmulateError::UnsupportedRegister { opcode: Opcode::DAD(register), register },
                );
            },
        };
        let addend1 = self.m();
        let sum: u32 = addend1 as u32 + addend2 as u32;
        self.flags.cy = sum > 0xffff;
        self.set_m((sum % 0x10000) as u16);
        Ok(())
    }

    /// `RLC`: rotates the accumulator left; CY takes the old bit 7.
    pub(crate) fn rlc(&mut self) -> (r: Result<(), EmulateError>)
        ensures
            r == Ok::<(), EmulateError>(()),
            *final(self) == spec_rlc(*old(self)),
    {
        let a = self.a;
        self.a = (a % 128) * 2 + a / 128;
        self.flags.cy = a >= 128;
        Ok(())
    }

    /// `RRC`: rotates the accumulator right; CY takes the old bit 0.
    pub(crate) fn rrc(&mut self) -> (r: Result<(), EmulateError>)
        ensures
            r == Ok::<(), EmulateError>(()),
            *final(self) == spec_rrc(*old(self)),
    {
        let a = self.a;
        self.a = a / 2 + (a % 2) * 128;
        self.flags.cy = a % 2 == 1;
        Ok(())
    }

    /// `RAL`: rotates the accumulator left through the carry bit.
    pub(crate) fn ral(&mut self) -> (r: Result<(), EmulateError>)
        ensures
            r == Ok::<(), EmulateError>(()),
            *final(self) == spec_ral(*old(self)),
    {
        let a = self.a;
        let c: u8 = if self.flags.cy {
            1
        } else {
            0
        };
        self.a = (a % 128) * 2 + c;
        self.flags.cy = a >= 128;
        Ok(())
    }

    /// `RAR`: rotates the accumulator right through the carry bit.
    pub(crate) fn rar(&mut self) -> (r: Result<(), EmulateError>)
        ensures
            r == Ok::<(), EmulateError>(()),
            *final(self) == spec_rar(*old(self)),
    {
        let a = self.a;
        let c: u8 = if self.flags.cy {
            128
        } else {
            0
        };
        self.a = a / 2 + c;
        self.flags.cy = a % 2 == 1;
        Ok(())
    }
}

/// Steps a 16-bit value up by one, wrapping around the address space.
pub(crate) fn inc16(v: u16) -> (r: u16)
    ensures
        r == wrap_inc16(v),
{
    if v == 0xffff {
        0
    } else {
        v + 1
    }
}

/// Steps a 16-bit value down by one, wrapping around the address space.
pub(crate) fn dec16(v: u16) -> (r: u16)
    ensures
        r == wrap_dec16(v),
{
    if v == 0 {
        0xffff
    } else {
        v - 1
    }
}

} // verus!
