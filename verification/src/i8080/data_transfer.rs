//! Data transfer instructions: register moves, immediate loads, loads and
//! stores through memory, the stack, and the (H,L)/(D,E) exchange.

use vstd::prelude::*;

use crate::flags::{spec_flags_of_byte, spec_flags_to_byte, ConditionalFlags};
use crate::i8080::error::EmulateError;
use crate::i8080::{spec_concat, spec_high, spec_low, wrap_inc16, I8080};
use crate::instruction::InstructionData;
use crate::interconnect::{is_ram, mem_written, mem_written_two, same_mem, Interconnect};
use crate::opcode::Opcode;
use crate::register::Register;

verus! {

/// What `LXI rp, d16` does: the two immediate bytes land in a register
/// pair or in SP, high byte in the pair's first register.
pub open spec fn lxi_rel(
    s: I8080,
    rp: Register,
    d: InstructionData,
    s1: I8080,
    r: Result<(), EmulateError>,
) -> bool {
    if d.first is Some && d.second is Some {
        let high = d.first->0;
        let low = d.second->0;
        match rp {
            Register::B => r == Ok::<(), EmulateError>(()) && s1 == (I8080 {
                b: high,
                c: low,
                ..s
            }),
            Register::D => r == Ok::<(), EmulateError>(()) && s1 == (I8080 {
                d: high,
                e: low,
                ..s
            }),
            Register::H => r == Ok::<(), EmulateError>(()) && s1 == (I8080 {
                h: high,
                l: low,
                ..s
            }),
            Register::SP => r == Ok::<(), EmulateError>(()) && s1 == (I8080 {
                sp: spec_concat(high, low),
                ..s
            }),
            _ => r == Err::<(), EmulateError>(
                EmulateError::UnsupportedRegister { opcode: Opcode::LXI(rp), register: rp },
            ) && s1 == s,
        }
    } else {
        r == Err::<(), EmulateError>(
            EmulateError::InvalidInstructionData { opcode: Opcode::LXI(rp), data: d },
        ) && s1 == s
    }
}

/// What `LDA a16` does: the accumulator takes the byte at the immediate
/// address.
pub open spec fn lda_rel(
    s: I8080,
    m: Interconnect,
    d: InstructionData,
    s1: I8080,
    r: Result<(), EmulateError>,
) -> bool {
    if d.first is Some && d.second is Some {
        let addr = spec_concat(d.first->0, d.second->0);
        r == Ok::<(), EmulateError>(()) && s1 == (I8080 { a: m.spec_read(addr), ..s })
    } else {
        r == Err::<(), EmulateError>(
            EmulateError::InvalidInstructionData { opcode: Opcode::LDA, data: d },
        ) && s1 == s
    }
}

/// What `STA a16` does: the accumulator is stored at the immediate
/// address; a ROM address is refused and nothing changes.
pub open spec fn sta_rel(
    s: I8080,
    m: Interconnect,
    d: InstructionData,
    s1: I8080,
    m1: Interconnect,
    r: Result<(), EmulateError>,
) -> bool {
    if d.first is Some && d.second is Some {
        let addr = spec_concat(d.first->0, d.second->0);
        if addr < 0x2000 {
            r == Err::<(), EmulateError>(EmulateError::WriteToROM) && s1 == s && same_mem(m, m1)
        } else {
            r == Ok::<(), EmulateError>(()) && s1 == s && mem_written(m, m1, addr, s.a)
        }
    } else {
        r == Err::<(), EmulateError>(
            EmulateError::InvalidInstructionData { opcode: Opcode::STA, data: d },
        ) && s1 == s && same_mem(m, m1)
    }
}

/// What `LDAX rp` does: the accumulator takes the byte addressed by BC or
/// DE; other registers are refused.
pub open spec fn ldax_rel(
    s: I8080,
    m: Interconnect,
    rp: Register,
    s1: I8080,
    r: Result<(), EmulateError>,
) -> bool {
    match rp {
        Register::B | Register::D => r == Ok::<(), EmulateError>(()) && s1 == (I8080 {
            a: m.spec_read(s.spec_pair(rp)),
            ..s
        }),
        _ => r == Err::<(), EmulateError>(
            EmulateError::UnsupportedRegister { opcode: Opcode::LDAX(rp), register: rp },
        ) && s1 == s,
    }
}

/// What `STAX rp` does: the accumulator is stored at the address in BC or
/// DE; other registers are refused, as is a ROM address.
pub open spec fn stax_rel(
    s: I8080,
    m: Interconnect,
    rp: Register,
    s1: I8080,
    m1: Interconnect,
    r: Result<(), EmulateError>,
) -> bool {
    match rp {
        Register::B | Register::D => {
            let addr = s.spec_pair(rp);
            if addr < 0x2000 {
                r == Err::<(), EmulateError>(EmulateError::WriteToROM) && s1 == s && same_mem(m, m1)
            } else {
                r == Ok::<(), EmulateError>(()) && s1 == s && mem_written(m, m1, addr, s.a)
            }
        },
        _ => r == Err::<(), EmulateError>(
            EmulateError::UnsupportedRegister { opcode: Opcode::STAX(rp), register: rp },
        ) && s1 == s && same_mem(m, m1),
    }
}

/// What `MOV dst, src` does: one byte moves between registers, or between
/// a register and the memory byte at (H,L) when one side is `M`. `SP` is
/// refused; `MOV M, M` does nothing, as the decoder never produces it.
pub open spec fn mov_rel(
    s: I8080,
    m: Interconnect,
    dst: Register,
    src: Register,
    s1: I8080,
    m1: Interconnect,
    r: Result<(), EmulateError>,
) -> bool {
    if dst == Register::SP || src == Register::SP {
        r == Err::<(), EmulateError>(
            EmulateError::UnsupportedRegister {
                opcode: Opcode::MOV(dst, src),
                register: Register::SP,
            },
        ) && s1 == s && same_mem(m, m1)
    } else if dst == Register::M && src == Register::M {
        r == Ok::<(), EmulateError>(()) && s1 == s && same_mem(m, m1)
    } else if dst == Register::M {
        let addr = s.spec_hl();
        if addr < 0x2000 {
            r == Err::<(), EmulateError>(EmulateError::WriteToROM) && s1 == s && same_mem(m, m1)
        } else {
            r == Ok::<(), EmulateError>(()) && s1 == s && mem_written(m, m1, addr, s.spec_reg8(src))
        }
    } else if src == Register::M {
        r == Ok::<(), EmulateError>(()) && s1 == s.spec_with_reg8(dst, m.spec_read(s.spec_hl()))
            && same_mem(m, m1)
    } else {
        r == Ok::<(), EmulateError>(()) && s1 == s.spec_with_reg8(dst, s.spec_reg8(src))
            && same_mem(m, m1)
    }
}

/// What `MVI r, d8` does: the immediate byte lands in a register, or in
/// the memory byte at (H,L) for `M`.
pub open spec fn mvi_rel(
    s: I8080,
    m: Interconnect,
    reg: Register,
    d: InstructionData,
    s1: I8080,
    m1: Interconnect,
    r: Result<(), EmulateError>,
) -> bool {
    if d.first is Some && d.second is None {
        let v = d.first->0;
        if reg == Register::SP {
            r == Err::<(), EmulateError>(
                EmulateError::UnsupportedRegister { opcode: Opcode::MVI(reg), register: reg },
            ) && s1 == s && same_mem(m, m1)
        } else if reg == Register::M {
            let addr = s.spec_hl();
            if addr < 0x2000 {
                r == Err::<(), EmulateError>(EmulateError::WriteToROM) && s1 == s && same_mem(m, m1)
            } else {
                r == Ok::<(), EmulateError>(()) && s1 == s && mem_written(m, m1, addr, v)
            }
        } else {
            r == Ok::<(), EmulateError>(()) && s1 == s.spec_with_reg8(reg, v) && same_mem(m, m1)
        }
    } else {
        r == Err::<(), EmulateError>(
            EmulateError::InvalidInstructionData { opcode: Opcode::MVI(reg), data: d },
        ) && s1 == s && same_mem(m, m1)
    }
}

/// What `SHLD a16` does: L lands at the immediate address and H one
/// above it; an address that puts either byte in ROM is refused.
pub open spec fn shld_rel(
    s: I8080,
    m: Interconnect,
    d: InstructionData,
    s1: I8080,
    m1: Interconnect,
    r: Result<(), EmulateError>,
) -> bool {
    if d.first is Some && d.second is Some {
        let addr = spec_concat(d.first->0, d.second->0);
        let addr2 = wrap_inc16(addr);
        if addr < 0x2000 || addr2 < 0x2000 {
            r == Err::<(), EmulateError>(EmulateError::WriteToROM) && s1 == s && same_mem(m, m1)
        } else {
            r == Ok::<(), EmulateError>(()) && s1 == s && mem_written_two(
                m,
                m1,
                addr,
                s.l,
                addr2,
                s.h,
            )
        }
    } else {
        r == Err::<(), EmulateError>(
            EmulateError::InvalidInstructionData { opcode: Opcode::SHLD, data: d },
        ) && s1 == s && same_mem(m, m1)
    }
}

/// What `LHLD a16` does: L takes the byte at the immediate address and H
/// the byte one above it.
pub open spec fn lhld_rel(
    s: I8080,
    m: Interconnect,
    d: InstructionData,
    s1: I8080,
    r: Result<(), EmulateError>,
) -> bool {
    if d.first is Some && d.second is Some {
        let addr = spec_concat(d.first->0, d.second->0);
        r == Ok::<(), EmulateError>(()) && s1 == (I8080 {
            h: m.spec_read(wrap_inc16(addr)),
            l: m.spec_read(addr),
            ..s
        })
    } else {
        r == Err::<(), EmulateError>(
            EmulateError::InvalidInstructionData { opcode: Opcode::LHLD, data: d },
        ) && s1 == s
    }
}

/// What `XTHL` does: (H,L) trades places with the 16-bit word on top of
/// the stack; a stack pointer inside ROM is refused.
pub open spec fn xthl_rel(
    s: I8080,
    m: Interconnect,
    s1: I8080,
    m1: Interconnect,
    r: Result<(), EmulateError>,
) -> bool {
    let sp1 = wrap_inc16(s.sp);
    if s.sp < 0x2000 || sp1 < 0x2000 {
        r == Err::<(), EmulateError>(EmulateError::WriteToROM) && s1 == s && same_mem(m, m1)
    } else {
        r == Ok::<(), EmulateError>(()) && s1 == (I8080 {
            l: m.spec_read(s.sp),
            h: m.spec_read(sp1),
            ..s
        }) && mem_written_two(m, m1, s.sp, s.l, sp1, s.h)
    }
}

/// The state after `XCHG`: (H,L) and (D,E) trade contents.
pub open spec fn spec_xchg(s: I8080) -> I8080 {
    I8080 { d: s.h, e: s.l, h: s.d, l: s.e, ..s }
}

/// The 16-bit word `PUSH rp` saves: a register pair's contents, or, for
/// the PSW (named by `A`), the accumulator over the packed flags byte.
pub open spec fn push_value(s: I8080, rp: Register) -> u16 {
    match rp {
        Register::B => spec_concat(s.b, s.c),
        Register::D => spec_concat(s.d, s.e),
        Register::H => spec_concat(s.h, s.l),
        Register::A => spec_concat(s.a, spec_flags_to_byte(s.flags)),
        _ => 0,
    }
}

/// What `PUSH rp` does: the pair's high byte lands one below the stack
/// pointer, its low byte two below, and SP moves down two. A push that
/// would leave the writable region is refused with `StackOverflow`.
pub open spec fn push_rel(
    s: I8080,
    m: Interconnect,
    rp: Register,
    s1: I8080,
    m1: Interconnect,
    r: Result<(), EmulateError>,
) -> bool {
    match rp {
        Register::B | Register::D | Register::H | Register::A => {
            if s.sp < 0x2002 {
                r == Err::<(), EmulateError>(EmulateError::StackOverflow) && s1 == s && same_mem(
                    m,
                    m1,
                )
            } else {
                r == Ok::<(), EmulateError>(()) && s1 == (I8080 { sp: (s.sp - 2) as u16, ..s })
                    && mem_written_two(
                    m,
                    m1,
                    (s.sp - 1) as u16,
                    spec_high(push_value(s, rp)),
                    (s.sp - 2) as u16,
                    spec_low(push_value(s, rp)),
                )
            }
        },
        _ => r == Err::<(), EmulateError>(
            EmulateError::UnsupportedRegister { opcode: Opcode::PUSH(rp), register: rp },
        ) && s1 == s && same_mem(m, m1),
    }
}

/// What `POP rp` does: the byte at the stack pointer goes into the pair's
/// second register (or, for the PSW, into the flags), the byte above it
/// into the first (or the accumulator), and SP moves up two.
pub open spec fn pop_rel(
    s: I8080,
    m: Interconnect,
    rp: Register,
    s1: I8080,
    r: Result<(), EmulateError>,
) -> bool {
    let low = m.spec_read(s.sp);
    let high = m.spec_read(wrap_inc16(s.sp));
    let sp2 = wrap_inc16(wrap_inc16(s.sp));
    match rp {
        Register::B => r == Ok::<(), EmulateError>(()) && s1 == (I8080 {
            b: high,
            c: low,
            sp: sp2,
            ..s
        }),
        Register::D => r == Ok::<(), EmulateError>(()) && s1 == (I8080 {
            d: high,
            e: low,
            sp: sp2,
            ..s
        }),
        Register::H => r == Ok::<(), EmulateError>(()) && s1 == (I8080 {
            h: high,
            l: low,
            sp: sp2,
            ..s
        }),
        Register::A => r == Ok::<(), EmulateError>(()) && s1 == (I8080 {
            a: high,
            flags: spec_flags_of_byte(low),
            sp: sp2,
            ..s
        }),
        _ => r == Err::<(), EmulateError>(
            EmulateError::UnsupportedRegister { opcode: Opcode::POP(rp), register: rp },
        ) && s1 == s,
    }
}

impl I8080 {
    /// `LXI rp, d16`: loads a register pair or SP with the immediate word.
    pub(crate) fn lxi(&mut self, register: Register, data: InstructionData) -> (r: Result<
        (),
        EmulateError,
    >)
        ensures
            lxi_rel(*old(self), register, data, *final(self), r),
    {
        if let (Some(high), Some(low)) = data.tuple() {
            match register {
                Register::B => {
                    self.b = high;
                    self.c = low;
                    Ok(())
                },
                Register::D => {
                    self.d = high;
                    self.e = low;
                    Ok(())
                },
                Register::H => {
                    self.h = high;
                    self.l = low;
                    Ok(())
                },
                Register::SP => {
                    self.sp = crate::i8080::concat_bytes(high, low);
                    Ok(())
                },
                _ => Err(
                    EmulateError::UnsupportedRegister { opcode: Opcode::LXI(register), register },
                ),
            }
        } else {
            Err(EmulateError::InvalidInstructionData { opcode: Opcode::LXI(register), data })
        }
    }

    /// `LDA a16`: loads the accumulator from the immediate address.
    pub(crate) fn lda(&mut self, data: InstructionData, interconnect: &Interconnect) -> (r: Result<
        (),
        EmulateError,
    >)
        requires
            interconnect.wf(),
        ensures
            lda_rel(*old(self), *interconnect, data, *final(self), r),
    {
        if let Some(addr) = data.addr() {
            self.a = interconnect.read_byte(addr);
            Ok(())
        } else {
            Err(EmulateError::InvalidInstructionData { opcode: Opcode::LDA, data })
        }
    }

    /// `STA a16`: stores the accumulator at the immediate address.
    pub(crate) fn sta(&mut self, data: InstructionData, interconnect: &mut Interconnect) -> (r:
        Result<(), EmulateError>)
        requires
            old(interconnect).wf(),
        ensures
            final(interconnect).wf(),
            sta_rel(*old(self), *old(interconnect), data, *final(self), *final(interconnect), r),
            r is Err ==> *final(interconnect) == *old(interconnect),
    {
        if let Some(addr) = data.addr() {
            interconnect.write_byte(addr, self.a)
        } else {
            Err(EmulateError::InvalidInstructionData { opcode: Opcode::STA, data })
        }
    }

    /// `LDAX rp`: loads the accumulator from the address in BC or DE.
    pub(crate) fn ldax(&mut self, register: Register, interconnect: &Interconnect) -> (r: Result<
        (),
        EmulateError,
    >)
        requires
            interconnect.wf(),
        ensures
            ldax_rel(*old(self), *interconnect, register, *final(self), r),
    {
        let loc = match register {
            Register::B => crate::i8080::concat_bytes(self.b, self.c),
            Register::D => crate::i8080::concat_bytes(self.d, self.e),
            _ => {
                return Err(
                    EmulateError::UnsupportedRegister { opcode: Opcode::LDAX(register), register },
                );
            },
        };
        self.a = interconnect.read_byte(loc);
        Ok(())
    }

    /// `STAX rp`: stores the accumulator at the address in BC or DE.
    pub(crate) fn stax(&mut self, register: Register, interconnect: &mut Interconnect) -> (r:
        Result<(), EmulateError>)
        requires
            old(interconnect).wf(),
        ensures
            final(interconnect).wf(),
            stax_rel(*old(self), *old(interconnect), register, *final(self), *final(interconnect), r),
            r is Err ==> *final(interconnect) == *old(interconnect),
    {
        let loc = match register {
            Register::B => crate::i8080::concat_bytes(self.b, self.c),
            Register::D => crate::i8080::concat_bytes(self.d, self.e),
            _ => {
                return Err(
                    EmulateError::UnsupportedRegister { opcode: Opcode::STAX(register), register },
                );
            },
        };
        interconnect.write_byte(loc, self.a)
    }

    /// `MOV dst, src`: copies one byte between registers or through the
    /// memory byte at (H,L).
    pub(crate) fn mov(
        &mut self,
        destination: Register,
        source: Register,
        interconnect: &mut Interconnect,
    ) -> (r: Result<(), EmulateError>)
        requires
            old(interconnect).wf(),
        ensures
            final(interconnect).wf(),
            mov_rel(
                *old(self),
                *old(interconnect),
                destination,
                source,
                *final(self),
                *final(interconnect),
                r,
            ),
            r is Err ==> *final(interconnect) == *old(interconnect),
    {
        match (destination, source) {
            (Register::SP, _) | (_, Register::SP) => Err(
                EmulateError::UnsupportedRegister {
                    opcode: Opcode::MOV(destination, source),
                    register: Register::SP,
                },
            ),
            (Register::M, src) => {
                if let Register::M = src {
                    return Ok(());
                }
                let addr = self.m();
                let v = match self.get_8bit_register(src) {
                    Ok(v) => v,
                    Err(_) => 0,
                };
                interconnect.write_byte(addr, v)
            },
            (dst, Register::M) => {
                let addr = self.m();
                let v = interconnect.read_byte(addr);
                self.set_reg8(dst, v);
                Ok(())
            },
            (dst, src) => {
                let v = match self.get_8bit_register(src) {
                    Ok(v) => v,
                    Err(_) => 0,
                };
                self.set_reg8(dst, v);
                Ok(())
            },
        }
    }

    /// `MVI r, d8`: stores the immediate byte in a register or in the
    /// memory byte at (H,L).
    pub(crate) fn mvi(
        &mut self,
        register: Register,
        data: InstructionData,
        interconnect: &mut Interconnect,
    ) -> (r: Result<(), EmulateError>)
        requires
            old(interconnect).wf(),
        ensures
            final(interconnect).wf(),
            mvi_rel(
                *old(self),
                *old(interconnect),
                register,
                data,
                *final(self),
                *final(interconnect),
                r,
            ),
            r is Err ==> *final(interconnect) == *old(interconnect),
    {
        if let (Some(value), None) = data.tuple() {
            match register {
                Register::SP => Err(
                    EmulateError::UnsupportedRegister { opcode: Opcode::MVI(register), register },
                ),
                Register::M => {
                    let addr = self.m();
                    interconnect.write_byte(addr, value)
                },
                _r => {
                    self.set_reg8(_r, value);
                    Ok(())
                },
            }
        } else {
            Err(EmulateError::InvalidInstructionData { opcode: Opcode::MVI(register), data })
        }
    }

    /// `XCHG`: exchanges the pairs (H,L) and (D,E).
    pub(crate) fn xchg(&mut self) -> (r: Result<(), EmulateError>)
        ensures
            r == Ok::<(), EmulateError>(()),
            *final(self) == spec_xchg(*old(self)),
    {
        let l = self.l;
        let h = self.h;
        self.l = self.e;
        self.h = self.d;
        self.d = h;
        self.e = l;
        Ok(())
    }

    /// `SHLD a16`: stores L at the immediate address and H one above it.
    pub(crate) fn shld(&mut self, data: InstructionData, interconnect: &mut Interconnect) -> (r:
        Result<(), EmulateError>)
        requires
            old(interconnect).wf(),
        ensures
            final(interconnect).wf(),
            shld_rel(*old(self), *old(interconnect), data, *final(self), *final(interconnect), r),
            r is Err ==> *final(interconnect) == *old(interconnect),
    {
        if let Some(addr) = data.addr() {
            let addr2 = crate::i8080::arithmetic::inc16(addr);
            if addr < 0x2000 || addr2 < 0x2000 {
                return Err(EmulateError::WriteToROM);
            }
            let l = self.l;
            let h = self.h;
            // Both addresses are out of ROM, so the bus accepts the writes.
            let _ = interconnect.write_byte(addr, l);
            let _ = interconnect.write_byte(addr2, h);
            Ok(())
        } else {
            Err(EmulateError::InvalidInstructionData { opcode: Opcode::SHLD, data })
        }
    }

    /// `LHLD a16`: loads L from the immediate address and H from one
    /// above it.
    pub(crate) fn lhld(&mut self, data: InstructionData, interconnect: &Interconnect) -> (r: Result<
        (),
        EmulateError,
    >)
        requires
            interconnect.wf(),
        ensures
            lhld_rel(*old(self), *interconnect, data, *final(self), r),
    {
        if let Some(addr) = data.addr() {
            let addr2 = crate::i8080::arithmetic::inc16(addr);
            self.l = interconnect.read_byte(addr);
            self.h = interconnect.read_byte(addr2);
            Ok(())
        } else {
            Err(EmulateError::InvalidInstructionData { opcode: Opcode::LHLD, data })
        }
    }

    /// `XTHL`: exchanges (H,L) with the word on top of the stack.
    pub(crate) fn xthl(&mut self, interconnect: &mut Interconnect) -> (r: Result<(), EmulateError>)
        requires
            old(interconnect).wf(),
        ensures
            final(interconnect).wf(),
            xthl_rel(*old(self), *old(interconnect), *final(self), *final(interconnect), r),
            r is Err ==> *final(interconnect) == *old(interconnect),
    {
        let sp = self.sp;
        let sp1 = crate::i8080::arithmetic::inc16(sp);
        if sp < 0x2000 || sp1 < 0x2000 {
            return Err(EmulateError::WriteToROM);
        }
        let stack_low = interconnect.read_byte(sp);
        let stack_high = interconnect.read_byte(sp1);
        let l = self.l;
        let h = self.h;
        // The stack pointer is out of ROM, so the bus accepts the writes.
        let _ = interconnect.write_byte(sp, l);
        let _ = interconnect.write_byte(sp1, h);
        self.l = stack_low;
        self.h = stack_high;
        Ok(())
    }

    /// `SPHL`: loads the stack pointer from (H,L).
    pub(crate) fn sphl(&mut self) -> (r: Result<(), EmulateError>)
        ensures
            r == Ok::<(), EmulateError>(()),
            *final(self) == (I8080 { sp: old(self).spec_hl(), ..*old(self) }),
    {
        self.sp = crate::i8080::concat_bytes(self.h, self.l);
        Ok(())
    }

    /// `PCHL`: loads the program counter from (H,L).
    pub(crate) fn pchl(&mut self) -> (r: Result<(), EmulateError>)
        ensures
            r == Ok::<(), EmulateError>(()),
            *final(self) == (I8080 { pc: old(self).spec_hl(), ..*old(self) }),
    {
        self.pc = crate::i8080::concat_bytes(self.h, self.l);
        Ok(())
    }

    /// `PUSH rp`: saves a register pair, or the PSW for `A`, on the stack.
    pub(crate) fn push(&mut self, register: Register, interconnect: &mut Interconnect) -> (r:
        Result<(), EmulateError>)
        requires
            old(interconnect).wf(),
        ensures
            final(interconnect).wf(),
            push_rel(*old(self), *old(interconnect), register, *final(self), *final(interconnect), r),
            r is Err ==> *final(interconnect) == *old(interconnect),
    {
        let value: u16 = match register {
            Register::B => crate::i8080::concat_bytes(self.b, self.c),
            Register::D => crate::i8080::concat_bytes(self.d, self.e),
            Register::H => crate::i8080::concat_bytes(self.h, self.l),
            Register::A => crate::i8080::concat_bytes(self.a, u8::from(self.flags)),
            _ => {
                return Err(
                    EmulateError::UnsupportedRegister { opcode: Opcode::PUSH(register), register },
                );
            },
        };
        self.push_u16(value, interconnect)
    }

    /// `POP rp`: restores a register pair, or the PSW for `A`, from the
    /// stack.
    pub(crate) fn pop(&mut self, register: Register, interconnect: &Interconnect) -> (r: Result<
        (),
        EmulateError,
    >)
        requires
            interconnect.wf(),
        ensures
            pop_rel(*old(self), *interconnect, register, *final(self), r),
    {
        match register {
            Register::B | Register::D | Register::H | Register::A => (),
            _ => {
                return Err(
                    EmulateError::UnsupportedRegister { opcode: Opcode::POP(register), register },
                );
            },
        }
        let low = match self.pop_u8(interconnect) {
            Ok(v) => v,
            Err(e) => {
                return Err(e);
            },
        };
        let high = match self.pop_u8(interconnect) {
            Ok(v) => v,
            Err(e) => {
                return Err(e);
            },
        };
        match register {
            Register::B => {
                self.b = high;
                self.c = low;
            },
            Register::D => {
                self.d = high;
                self.e = low;
            },
            Register::H => {
                self.h = high;
                self.l = low;
            },
            _ => {
                self.a = high;
                self.flags = ConditionalFlags::from(low);
            },
        }
        Ok(())
    }
}

/// A 16-bit value splits into the high and low bytes that rebuild it.
pub proof fn lemma_concat_split(high: u8, low: u8)
    ensures
        spec_high(spec_concat(high, low)) == high,
        spec_low(spec_concat(high, low)) == low,
{
    assert((high * 256 + low) / 256 == high && (high * 256 + low) % 256 == low) by (nonlinear_arith);
}

/// A 16-bit value is exactly its high byte over its low byte: the pair
/// view is bijective with the byte pair.
pub proof fn lemma_split_concat(v: u16)
    ensures
        spec_concat(spec_high(v), spec_low(v)) == v,
{
}

/// Pushing a register pair and popping it back leaves the pair — or, for
/// the PSW, the accumulator and every flag — unchanged, and returns the
/// stack pointer to its prior value. This holds wherever the push lands
/// both bytes in mapped RAM, that is for a stack pointer of at most
/// `0x4000`.
pub proof fn lemma_push_pop_round_trip(
    s: I8080,
    m: Interconnect,
    rp: Register,
    s1: I8080,
    m1: Interconnect,
    s2: I8080,
)
    requires
        rp == Register::B || rp == Register::D || rp == Register::H || rp == Register::A,
        0x2002 <= s.sp <= 0x4000,
        push_rel(s, m, rp, s1, m1, Ok::<(), EmulateError>(())),
        pop_rel(s1, m1, rp, s2, Ok::<(), EmulateError>(())),
    ensures
        s2.sp == s.sp,
        rp == Register::B ==> s2.b == s.b && s2.c == s.c,
        rp == Register::D ==> s2.d == s.d && s2.e == s.e,
        rp == Register::H ==> s2.h == s.h && s2.l == s.l,
        rp == Register::A ==> s2.a == s.a && s2.flags == s.flags,
{
    let v = push_value(s, rp);
    assert(is_ram((s.sp - 1) as u16) && is_ram((s.sp - 2) as u16));
    assert(m1.spec_read((s.sp - 2) as u16) == spec_low(v));
    assert(m1.spec_read((s.sp - 1) as u16) == spec_high(v));
    match rp {
        Register::B => lemma_concat_split(s.b, s.c),
        Register::D => lemma_concat_split(s.d, s.e),
        Register::H => lemma_concat_split(s.h, s.l),
        Register::A => {
            lemma_concat_split(s.a, spec_flags_to_byte(s.flags));
            crate::flags::lemma_flags_round_trip(s.flags);
        },
        _ => (),
    }
}

/// Two exchanges in a row restore D, E, H and L: `XCHG` is an involution.
pub proof fn lemma_xchg_involution(s: I8080)
    ensures
        spec_xchg(spec_xchg(s)) == s,
{
}

} // verus!
