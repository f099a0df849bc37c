//! The 8080 register file and execution engine.

use vstd::prelude::*;

pub mod arithmetic;
pub mod branch;
pub mod data_transfer;
pub mod io;
pub mod logical;
pub mod special;
pub mod error;

use crate::flags::ConditionalFlags;
use crate::instruction::Instruction;
use crate::interconnect::{mem_written, mem_written_two, same_mem, Interconnect};
use crate::opcode::{spec_size_bytes, Opcode};
use crate::register::Register;
use self::arithmetic::{
    add_rel, adi_rel, dad_rel, dcr_rel, dcx_rel, inr_rel, inx_rel, spec_ral, spec_rar, spec_rlc,
    spec_rrc, sub_rel, sui_rel,
};
use self::branch::{call_rel, ccc_rel, jcc_rel, jmp_rel, rcc_rel, ret_rel, rst_rel};
use self::data_transfer::{
    lda_rel, ldax_rel, lhld_rel, lxi_rel, mov_rel, mvi_rel, pop_rel, push_rel, shld_rel, spec_xchg,
    sta_rel, stax_rel, xthl_rel,
};
use self::error::EmulateError;
use self::io::{input_rel, out_rel};
use self::logical::{logical_imm_rel, logical_rel};

verus! {

/// The processor state: seven byte registers, the stack pointer, the
/// program counter, the condition flags, the interrupt-enable bit,
/// whether a `HLT` has stopped execution, and the bank of 256 output
/// ports that `OUT` and `IN` address. Memory lives on the bus, which is
/// handed to each instruction that needs it.
#[derive(Clone, Copy, Debug, PartialEq, Eq)]
pub struct I8080 {
    pub a: u8,
    pub b: u8,
    pub c: u8,
    pub d: u8,
    pub e: u8,
    pub h: u8,
    pub l: u8,
    pub sp: u16,
    pub pc: u16,
    pub flags: ConditionalFlags,
    pub interrupts_enabled: bool,
    pub halted: bool,
    pub devices: [u8; 256],
}

/// The 16-bit value formed from a high and a low byte.
pub open spec fn spec_concat(high: u8, low: u8) -> u16 {
    (high * 256 + low) as u16
}

/// The high byte of a 16-bit value.
pub open spec fn spec_high(v: u16) -> u8 {
    (v / 256) as u8
}

/// The low byte of a 16-bit value.
pub open spec fn spec_low(v: u16) -> u8 {
    (v % 256) as u8
}

/// Increment that wraps around the 16-bit address space.
pub open spec fn wrap_inc16(v: u16) -> u16 {
    if v == 0xffff {
        0
    } else {
        (v + 1) as u16
    }
}

/// Decrement that wraps around the 16-bit address space.
pub open spec fn wrap_dec16(v: u16) -> u16 {
    if v == 0 {
        0xffff
    } else {
        (v - 1) as u16
    }
}

impl I8080 {
    /// The value of one of the seven byte registers.
    pub open spec fn spec_reg8(self, r: Register) -> u8
        recommends
            r != Register::M && r != Register::SP,
    {
        match r {
            Register::A => self.a,
            Register::B => self.b,
            Register::C => self.c,
            Register::D => self.d,
            Register::E => self.e,
            Register::H => self.h,
            Register::L => self.l,
            _ => 0,
        }
    }

    /// The state with one byte register replaced.
    pub open spec fn spec_with_reg8(self, r: Register, v: u8) -> I8080
        recommends
            r != Register::M && r != Register::SP,
    {
        match r {
            Register::A => I8080 { a: v, ..self },
            Register::B => I8080 { b: v, ..self },
            Register::C => I8080 { c: v, ..self },
            Register::D => I8080 { d: v, ..self },
            Register::E => I8080 { e: v, ..self },
            Register::H => I8080 { h: v, ..self },
            Register::L => I8080 { l: v, ..self },
            _ => self,
        }
    }

    /// The memory address held in the pair (H,L).
    pub open spec fn spec_hl(self) -> u16 {
        spec_concat(self.h, self.l)
    }

    /// The 16-bit value of a register pair: BC, DE, HL, or SP itself.
    pub open spec fn spec_pair(self, r: Register) -> u16
        recommends
            r == Register::B || r == Register::D || r == Register::H || r == Register::SP,
    {
        match r {
            Register::B => spec_concat(self.b, self.c),
            Register::D => spec_concat(self.d, self.e),
            Register::H => spec_concat(self.h, self.l),
            Register::SP => self.sp,
            _ => 0,
        }
    }

    /// The state at machine reset: every register zero, flags clear,
    /// interrupts enabled.
    pub open spec fn spec_initial() -> I8080 {
        I8080 {
            a: 0,
            b: 0,
            c: 0,
            d: 0,
            e: 0,
            h: 0,
            l: 0,
            sp: 0,
            pc: 0,
            flags: ConditionalFlags { z: false, s: false, p: false, cy: false, ac: false },
            interrupts_enabled: true,
            halted: false,
            devices: vstd::array::spec_array_fill_for_copy_type(0),
        }
    }

    /// The state with the program counter moved `n` bytes forward,
    /// wrapping around the address space.
    pub open spec fn spec_advanced(self, n: u16) -> I8080 {
        I8080 { pc: ((self.pc + n) % 0x10000) as u16, ..self }
    }

    /// A processor in the reset state.
    pub fn new() -> (cpu: I8080)
        ensures
            cpu == I8080::spec_initial(),
    {
        I8080 {
            a: 0,
            b: 0,
            c: 0,
            d: 0,
            e: 0,
            h: 0,
            l: 0,
            sp: 0,
            pc: 0,
            flags: ConditionalFlags::new(),
            interrupts_enabled: true,
            halted: false,
            devices: [0; 256],
        }
    }

    /// Reads one of the seven byte registers; `M` and `SP` are not 8-bit
    /// reads and are refused.
    pub fn get_8bit_register(&self, register: Register) -> (r: Result<u8, EmulateError>)
        ensures
            register != Register::M && register != Register::SP ==> r == Ok::<u8, EmulateError>(
                self.spec_reg8(register),
            ),
            register == Register::M || register == Register::SP ==> r == Err::<u8, EmulateError>(
                EmulateError::RegisterNot8Bit { register },
            ),
    {
        match register {
            Register::A => Ok(self.a),
            Register::B => Ok(self.b),
            Register::C => Ok(self.c),
            Register::D => Ok(self.d),
            Register::E => Ok(self.e),
            Register::H => Ok(self.h),
            Register::L => Ok(self.l),
            _r => Err(EmulateError::RegisterNot8Bit { register }),
        }
    }

    /// Writes one of the seven byte registers, mirroring the reads that
    /// `get_8bit_register` allows; `M` and `SP` are refused.
    pub fn set_8bit_register(&mut self, register: Register, value: u8) -> (r: Result<
        (),
        EmulateError,
    >)
        ensures
            register != Register::M && register != Register::SP ==> r == Ok::<(), EmulateError>(())
                && *final(self) == old(self).spec_with_reg8(register, value),
            register == Register::M || register == Register::SP ==> r == Err::<(), EmulateError>(
                EmulateError::RegisterNot8Bit { register },
            ) && *final(self) == *old(self),
    {
        match register {
            Register::M | Register::SP => Err(EmulateError::RegisterNot8Bit { register }),
            _r => {
                self.set_reg8(register, value);
                Ok(())
            },
        }
    }

    /// Writes a byte register known to be one of the seven.
    pub(crate) fn set_reg8(&mut self, register: Register, value: u8)
        requires
            register != Register::M && register != Register::SP,
        ensures
            *final(self) == old(self).spec_with_reg8(register, value),
    {
        match register {
            Register::A => self.a = value,
            Register::B => self.b = value,
            Register::C => self.c = value,
            Register::D => self.d = value,
            Register::E => self.e = value,
            Register::H => self.h = value,
            Register::L => self.l = value,
            _ => (),
        }
    }

    /// The memory address held in the pair (H,L).
    pub fn m(&self) -> (addr: u16)
        ensures
            addr == self.spec_hl(),
    {
        concat_bytes(self.h, self.l)
    }

    /// Loads the pair (H,L) with an address, high byte into H.
    pub fn set_m(&mut self, addr: u16)
        ensures
            *final(self) == (I8080 { h: spec_high(addr), l: spec_low(addr), ..*old(self) }),
    {
        let (high, low) = split_bytes(addr);
        self.h = high;
        self.l = low;
    }

    /// Replaces the stack pointer.
    pub fn set_sp(&mut self, value: u16)
        ensures
            *final(self) == (I8080 { sp: value, ..*old(self) }),
    {
        self.sp = value;
    }

    /// The stack pointer.
    pub fn sp(&self) -> (v: u16)
        ensures
            v == self.sp,
    {
        self.sp
    }

    /// The program counter.
    pub fn pc(&self) -> (v: u16)
        ensures
            v == self.pc,
    {
        self.pc
    }

    /// Replaces the program counter.
    pub fn set_pc(&mut self, addr: u16)
        ensures
            *final(self) == (I8080 { pc: addr, ..*old(self) }),
    {
        self.pc = addr;
    }

    /// The condition flags.
    pub fn flags(&self) -> (f: ConditionalFlags)
        ensures
            f == self.flags,
    {
        self.flags
    }

    /// Whether interrupts are enabled.
    pub fn interrupts_enabled(&self) -> (r: bool)
        ensures
            r == self.interrupts_enabled,
    {
        self.interrupts_enabled
    }

    /// Pushes one byte: the stack pointer moves down one and the byte is
    /// written there. Refused with `StackOverflow` when that would leave
    /// the writable region.
    pub fn push_u8(&mut self, value: u8, interconnect: &mut Interconnect) -> (r: Result<
        (),
        EmulateError,
    >)
        requires
            old(interconnect).wf(),
        ensures
            final(interconnect).wf(),
            old(self).sp >= 0x2001 ==> r == Ok::<(), EmulateError>(()) && *final(self) == (I8080 {
                sp: (old(self).sp - 1) as u16,
                ..*old(self)
            }) && mem_written(
                *old(interconnect),
                *final(interconnect),
                (old(self).sp - 1) as u16,
                value,
            ),
            old(self).sp < 0x2001 ==> r == Err::<(), EmulateError>(EmulateError::StackOverflow)
                && *final(self) == *old(self) && *final(interconnect) == *old(interconnect),
    {
        if self.sp < 0x2001 {
            return Err(EmulateError::StackOverflow);
        }
        let loc = self.sp - 1;
        // The guard above keeps `loc` inside writable memory, so the bus
        // accepts the write.
        let _ = interconnect.write_byte(loc, value);
        self.sp -= 1;
        Ok(())
    }

    /// Pushes a 16-bit value: the high byte lands one below the old stack
    /// pointer, the low byte two below, and the stack pointer moves down
    /// two. Refused with `StackOverflow`, changing nothing, when either
    /// byte would land below the writable region.
    pub fn push_u16(&mut self, value: u16, interconnect: &mut Interconnect) -> (r: Result<
        (),
        EmulateError,
    >)
        requires
            old(interconnect).wf(),
        ensures
            final(interconnect).wf(),
            old(self).sp >= 0x2002 ==> r == Ok::<(), EmulateError>(()) && *final(self) == (I8080 {
                sp: (old(self).sp - 2) as u16,
                ..*old(self)
            }) && mem_written_two(
                *old(interconnect),
                *final(interconnect),
                (old(self).sp - 1) as u16,
                spec_high(value),
                (old(self).sp - 2) as u16,
                spec_low(value),
            ),
            old(self).sp < 0x2002 ==> r == Err::<(), EmulateError>(EmulateError::StackOverflow)
                && *final(self) == *old(self) && *final(interconnect) == *old(interconnect),
    {
        if self.sp < 0x2002 {
            return Err(EmulateError::StackOverflow);
        }
        let (high, low) = split_bytes(value);
        // The guard above leaves room for both bytes, so neither push can
        // overflow.
        let _ = self.push_u8(high, interconnect);
        let _ = self.push_u8(low, interconnect);
        Ok(())
    }

    /// Pops one byte: reads at the stack pointer, then moves it up one,
    /// wrapping around the address space.
    pub fn pop_u8(&mut self, interconnect: &Interconnect) -> (r: Result<u8, EmulateError>)
        requires
            interconnect.wf(),
        ensures
            r == Ok::<u8, EmulateError>(interconnect.spec_read(old(self).sp)),
            *final(self) == (I8080 { sp: wrap_inc16(old(self).sp), ..*old(self) }),
    {
        let value = interconnect.read_byte(self.sp);
        if self.sp == 0xffff {
            self.sp = 0;
        } else {
            self.sp += 1;
        }
        Ok(value)
    }

    /// Pops a 16-bit value: the low byte from the stack pointer, the high
    /// byte from one above it; the stack pointer moves up two.
    pub fn pop_u16(&mut self, interconnect: &Interconnect) -> (r: Result<u16, EmulateError>)
        requires
            interconnect.wf(),
        ensures
            r == Ok::<u16, EmulateError>(
                spec_concat(
                    interconnect.spec_read(wrap_inc16(old(self).sp)),
                    interconnect.spec_read(old(self).sp),
                ),
            ),
            *final(self) == (I8080 { sp: wrap_inc16(wrap_inc16(old(self).sp)), ..*old(self) }),
    {
        let low = match self.pop_u8(interconnect) {
            Ok(v) => v,
            Err(e) => {
                return Err(e);
            },
        };
        let high = match self.pop_u8(interconnect) {
            Ok(v) => v,
            Err(e) => {
                return Err(e);
            },
        };
        Ok(concat_bytes(high, low))
    }
}


/// What each opcode does to a machine whose program counter already
/// points past the instruction: `t` and `m1` are the state and memory
/// afterwards, `r` the result. On an error the machine and memory are
/// unchanged. The opcodes this engine leaves unimplemented — `RIM`,
/// `SIM`, `DAA`, `CMA`, `STC` and `CMC` — decode but fault without
/// executing, as the last arm states.
pub open spec fn spec_dispatch_rel(
    s: I8080,
    m0: Interconnect,
    i: Instruction,
    t: I8080,
    m1: Interconnect,
    r: Result<(), EmulateError>,
) -> bool {
    match i.opcode {
        Opcode::NOP => r == Ok::<(), EmulateError>(()) && t == s && same_mem(m0, m1),
        Opcode::LXI(rp) => lxi_rel(s, rp, i.data, t, r) && same_mem(m0, m1),
        Opcode::STAX(rp) => stax_rel(s, m0, rp, t, m1, r),
        Opcode::INX(rp) => inx_rel(s, rp, t, r) && same_mem(m0, m1),
        Opcode::INR(reg) => inr_rel(s, m0, reg, t, m1, r),
        Opcode::DCR(reg) => dcr_rel(s, m0, reg, t, m1, r),
        Opcode::MVI(reg) => mvi_rel(s, m0, reg, i.data, t, m1, r),
        Opcode::DAD(rp) => dad_rel(s, rp, t, r) && same_mem(m0, m1),
        Opcode::LDAX(rp) => ldax_rel(s, m0, rp, t, r) && same_mem(m0, m1),
        Opcode::DCX(rp) => dcx_rel(s, rp, t, r) && same_mem(m0, m1),
        Opcode::MOV(dst, src) => mov_rel(s, m0, dst, src, t, m1, r),
        Opcode::PUSH(rp) => push_rel(s, m0, rp, t, m1, r),
        Opcode::POP(rp) => pop_rel(s, m0, rp, t, r) && same_mem(m0, m1),
        Opcode::ADD(reg) => add_rel(s, m0, reg, false, t, r) && same_mem(m0, m1),
        Opcode::ADC(reg) => add_rel(s, m0, reg, true, t, r) && same_mem(m0, m1),
        Opcode::SUB(reg) => sub_rel(s, m0, reg, false, t, r) && same_mem(m0, m1),
        Opcode::SBB(reg) => sub_rel(s, m0, reg, true, t, r) && same_mem(m0, m1),
        Opcode::ANA(reg) => logical_rel(s, m0, reg, Opcode::ANA(reg), t, r) && same_mem(m0, m1),
        Opcode::XRA(reg) => logical_rel(s, m0, reg, Opcode::XRA(reg), t, r) && same_mem(m0, m1),
        Opcode::ORA(reg) => logical_rel(s, m0, reg, Opcode::ORA(reg), t, r) && same_mem(m0, m1),
        Opcode::CMP(reg) => logical_rel(s, m0, reg, Opcode::CMP(reg), t, r) && same_mem(m0, m1),
        Opcode::RLC => r == Ok::<(), EmulateError>(()) && t == spec_rlc(s) && same_mem(m0, m1),
        Opcode::RRC => r == Ok::<(), EmulateError>(()) && t == spec_rrc(s) && same_mem(m0, m1),
        Opcode::RAL => r == Ok::<(), EmulateError>(()) && t == spec_ral(s) && same_mem(m0, m1),
        Opcode::RAR => r == Ok::<(), EmulateError>(()) && t == spec_rar(s) && same_mem(m0, m1),
        Opcode::STA => sta_rel(s, m0, i.data, t, m1, r),
        Opcode::LDA => lda_rel(s, m0, i.data, t, r) && same_mem(m0, m1),
        Opcode::SHLD => shld_rel(s, m0, i.data, t, m1, r),
        Opcode::LHLD => lhld_rel(s, m0, i.data, t, r) && same_mem(m0, m1),
        Opcode::XTHL => xthl_rel(s, m0, t, m1, r),
        Opcode::SPHL => r == Ok::<(), EmulateError>(()) && t == (I8080 { sp: s.spec_hl(), ..s })
            && same_mem(m0, m1),
        Opcode::PCHL => r == Ok::<(), EmulateError>(()) && t == (I8080 { pc: s.spec_hl(), ..s })
            && same_mem(m0, m1),
        Opcode::JMP => jmp_rel(s, i.data, t, r) && same_mem(m0, m1),
        Opcode::JNZ => jcc_rel(s, i.data, !s.flags.z, t, r) && same_mem(m0, m1),
        Opcode::JZ => jcc_rel(s, i.data, s.flags.z, t, r) && same_mem(m0, m1),
        Opcode::JNC => jcc_rel(s, i.data, !s.flags.cy, t, r) && same_mem(m0, m1),
        Opcode::JC => jcc_rel(s, i.data, s.flags.cy, t, r) && same_mem(m0, m1),
        Opcode::JPO => jcc_rel(s, i.data, !s.flags.p, t, r) && same_mem(m0, m1),
        Opcode::JPE => jcc_rel(s, i.data, s.flags.p, t, r) && same_mem(m0, m1),
        Opcode::JP => jcc_rel(s, i.data, !s.flags.s, t, r) && same_mem(m0, m1),
        Opcode::JM => jcc_rel(s, i.data, s.flags.s, t, r) && same_mem(m0, m1),
        Opcode::CALL => call_rel(s, m0, i.data, t, m1, r),
        Opcode::CNZ => ccc_rel(s, m0, i.data, !s.flags.z, t, m1, r),
        Opcode::CZ => ccc_rel(s, m0, i.data, s.flags.z, t, m1, r),
        Opcode::CNC => ccc_rel(s, m0, i.data, !s.flags.cy, t, m1, r),
        Opcode::CC => ccc_rel(s, m0, i.data, s.flags.cy, t, m1, r),
        Opcode::CPO => ccc_rel(s, m0, i.data, !s.flags.p, t, m1, r),
        Opcode::CPE => ccc_rel(s, m0, i.data, s.flags.p, t, m1, r),
        Opcode::CP => ccc_rel(s, m0, i.data, !s.flags.s, t, m1, r),
        Opcode::CM => ccc_rel(s, m0, i.data, s.flags.s, t, m1, r),
        Opcode::RET => ret_rel(s, m0, t, r) && same_mem(m0, m1),
        Opcode::RNZ => rcc_rel(s, m0, !s.flags.z, t, r) && same_mem(m0, m1),
        Opcode::RZ => rcc_rel(s, m0, s.flags.z, t, r) && same_mem(m0, m1),
        Opcode::RNC => rcc_rel(s, m0, !s.flags.cy, t, r) && same_mem(m0, m1),
        Opcode::RC => rcc_rel(s, m0, s.flags.cy, t, r) && same_mem(m0, m1),
        Opcode::RPO => rcc_rel(s, m0, !s.flags.p, t, r) && same_mem(m0, m1),
        Opcode::RPE => rcc_rel(s, m0, s.flags.p, t, r) && same_mem(m0, m1),
        Opcode::RP => rcc_rel(s, m0, !s.flags.s, t, r) && same_mem(m0, m1),
        Opcode::RM => rcc_rel(s, m0, s.flags.s, t, r) && same_mem(m0, m1),
        Opcode::RST(n) => rst_rel(s, m0, n, t, m1, r),
        Opcode::ADI => adi_rel(s, i.data, false, t, r) && same_mem(m0, m1),
        Opcode::ACI => adi_rel(s, i.data, true, t, r) && same_mem(m0, m1),
        Opcode::SUI => sui_rel(s, i.data, false, t, r) && same_mem(m0, m1),
        Opcode::SBI => sui_rel(s, i.data, true, t, r) && same_mem(m0, m1),
        Opcode::ANI => logical_imm_rel(s, i.data, Opcode::ANI, t, r) && same_mem(m0, m1),
        Opcode::XRI => logical_imm_rel(s, i.data, Opcode::XRI, t, r) && same_mem(m0, m1),
        Opcode::ORI => logical_imm_rel(s, i.data, Opcode::ORI, t, r) && same_mem(m0, m1),
        Opcode::CPI => logical_imm_rel(s, i.data, Opcode::CPI, t, r) && same_mem(m0, m1),
        Opcode::OUT => out_rel(s, i.data, t, r) && same_mem(m0, m1),
        Opcode::IN => input_rel(s, i.data, t, r) && same_mem(m0, m1),
        Opcode::XCHG => r == Ok::<(), EmulateError>(()) && t == spec_xchg(s) && same_mem(m0, m1),
        Opcode::EI => r == Ok::<(), EmulateError>(()) && t == (I8080 {
            interrupts_enabled: true,
            ..s
        }) && same_mem(m0, m1),
        Opcode::DI => r == Ok::<(), EmulateError>(()) && t == (I8080 {
            interrupts_enabled: false,
            ..s
        }) && same_mem(m0, m1),
        Opcode::HLT => r == Ok::<(), EmulateError>(()) && t == (I8080 { halted: true, ..s })
            && same_mem(m0, m1),
        _ => r == Err::<(), EmulateError>(
            EmulateError::UnimplementedInstruction { instruction: i },
        ) && t == s && same_mem(m0, m1),
    }
}

/// An instruction that returns an error changes nothing: the machine and
/// the memory are exactly as they were.
pub proof fn lemma_dispatch_err_unchanged(
    s: I8080,
    m0: Interconnect,
    i: Instruction,
    t: I8080,
    m1: Interconnect,
    r: Result<(), EmulateError>,
)
    requires
        spec_dispatch_rel(s, m0, i, t, m1, r),
        r is Err,
    ensures
        t == s,
        same_mem(m0, m1),
{
}

/// How the machine steps by one instruction: the program counter first
/// advances past the instruction, then the opcode's own semantics apply.
/// On an error the machine is exactly as it was, program counter
/// included, and memory is untouched.
pub open spec fn spec_step_rel(
    s0: I8080,
    m0: Interconnect,
    i: Instruction,
    s1: I8080,
    m1: Interconnect,
    r: Result<(), EmulateError>,
) -> bool {
    let s = s0.spec_advanced(spec_size_bytes(i.opcode));
    &&& (r is Err ==> s1 == s0)
    &&& spec_dispatch_rel(
        s,
        m0,
        i,
        if r is Ok {
            s1
        } else {
            s
        },
        m1,
        r,
    )
}

impl I8080 {
    /// Executes one decoded instruction against the bus. The program
    /// counter advances past the instruction and the opcode's semantics
    /// apply, atomically: on an error nothing changes, the program
    /// counter included, and the error says exactly what was refused.
    pub fn emulate_instruction(
        &mut self,
        instruction: Instruction,
        ic: &mut Interconnect,
    ) -> (r: Result<(), EmulateError>)
        requires
            old(ic).wf(),
        ensures
            final(ic).wf(),
            r is Err ==> *final(self) == *old(self) && *final(ic) == *old(ic),
            spec_step_rel(*old(self), *old(ic), instruction, *final(self), *final(ic), r),
    {
        let ghost s0 = *self;
        let old_pc = self.pc;
        let len = instruction.len();
        self.pc = ((old_pc as u32 + len as u32) % 0x10000) as u16;
        proof {
            assert(*self == s0.spec_advanced(spec_size_bytes(instruction.opcode)));
        }
        let ghost m0 = *ic;
        let r = self.dispatch(instruction, ic);
        if let Err(_) = r {
            proof {
                lemma_dispatch_err_unchanged(
                    s0.spec_advanced(spec_size_bytes(instruction.opcode)),
                    m0,
                    instruction,
                    *self,
                    *ic,
                    r,
                );
            }
            self.pc = old_pc;
            proof {
                assert(*self == s0);
            }
        }
        r
    }

    /// Applies one opcode's semantics; the caller has already advanced
    /// the program counter past the instruction.
    pub(crate) fn dispatch(&mut self, instruction: Instruction, ic: &mut Interconnect) -> (r:
        Result<(), EmulateError>)
        requires
            old(ic).wf(),
        ensures
            final(ic).wf(),
            spec_dispatch_rel(*old(self), *old(ic), instruction, *final(self), *final(ic), r),
            r is Err ==> *final(ic) == *old(ic),
    {
        match instruction.opcode() {
            Opcode::LXI(_) | Opcode::LDAX(_) | Opcode::STAX(_) | Opcode::LDA | Opcode::STA
                | Opcode::SHLD | Opcode::LHLD | Opcode::XTHL | Opcode::SPHL | Opcode::PCHL
                | Opcode::MOV(_, _) | Opcode::MVI(_) | Opcode::XCHG | Opcode::PUSH(_)
                | Opcode::POP(_) => self.dispatch_transfer(instruction, ic),
            Opcode::INX(_) | Opcode::DCX(_) | Opcode::INR(_) | Opcode::DCR(_) | Opcode::ADD(_)
                | Opcode::ADC(_) | Opcode::ADI | Opcode::ACI | Opcode::SUB(_) | Opcode::SBB(_)
                | Opcode::SUI | Opcode::SBI | Opcode::DAD(_) | Opcode::RLC | Opcode::RRC
                | Opcode::RAL | Opcode::RAR => self.dispatch_arithmetic(instruction, ic),
            Opcode::ANA(_) | Opcode::XRA(_) | Opcode::ORA(_) | Opcode::CMP(_) | Opcode::ANI
                | Opcode::XRI | Opcode::ORI | Opcode::CPI => self.dispatch_logical(instruction, ic),
            Opcode::JMP | Opcode::JNZ | Opcode::JZ | Opcode::JNC | Opcode::JC | Opcode::JPO
                | Opcode::JPE | Opcode::JP | Opcode::JM => self.dispatch_jump(instruction),
            Opcode::CALL | Opcode::CNZ | Opcode::CZ | Opcode::CNC | Opcode::CC | Opcode::CPO
                | Opcode::CPE | Opcode::CP | Opcode::CM => self.dispatch_call(instruction, ic),
            Opcode::RET | Opcode::RNZ | Opcode::RZ | Opcode::RNC | Opcode::RC | Opcode::RPO
                | Opcode::RPE | Opcode::RP | Opcode::RM | Opcode::RST(_) => self.dispatch_return(
                instruction,
                ic,
            ),
            _ => self.dispatch_control(instruction),
        }
    }

    /// The data transfer opcodes of the dispatcher.
    fn dispatch_transfer(&mut self, instruction: Instruction, ic: &mut Interconnect) -> (r: Result<
        (),
        EmulateError,
    >)
        requires
            old(ic).wf(),
            instruction.opcode is LXI || instruction.opcode is LDAX || instruction.opcode is STAX
                || instruction.opcode is LDA || instruction.opcode is STA
                || instruction.opcode is SHLD || instruction.opcode is LHLD
                || instruction.opcode is XTHL || instruction.opcode is SPHL
                || instruction.opcode is PCHL || instruction.opcode is MOV
                || instruction.opcode is MVI || instruction.opcode is XCHG
                || instruction.opcode is PUSH || instruction.opcode is POP,
        ensures
            final(ic).wf(),
            spec_dispatch_rel(*old(self), *old(ic), instruction, *final(self), *final(ic), r),
            r is Err ==> *final(ic) == *old(ic),
    {
        match instruction.opcode() {
            Opcode::LXI(rp) => self.lxi(rp, instruction.data()),
            Opcode::LDAX(rp) => self.ldax(rp, ic),
            Opcode::STAX(rp) => self.stax(rp, ic),
            Opcode::LDA => self.lda(instruction.data(), ic),
            Opcode::STA => self.sta(instruction.data(), ic),
            Opcode::SHLD => self.shld(instruction.data(), ic),
            Opcode::LHLD => self.lhld(instruction.data(), ic),
            Opcode::XTHL => self.xthl(ic),
            Opcode::SPHL => self.sphl(),
            Opcode::PCHL => self.pchl(),
            Opcode::MOV(dst, src) => self.mov(dst, src, ic),
            Opcode::MVI(reg) => self.mvi(reg, instruction.data(), ic),
            Opcode::XCHG => self.xchg(),
            Opcode::PUSH(rp) => self.push(rp, ic),
            _ => self.pop_checked(instruction, ic),
        }
    }

    /// The `POP` arm, separated so the default arm above stays total.
    fn pop_checked(&mut self, instruction: Instruction, ic: &Interconnect) -> (r: Result<
        (),
        EmulateError,
    >)
        requires
            ic.wf(),
            instruction.opcode is POP,
        ensures
            spec_dispatch_rel(*old(self), *ic, instruction, *final(self), *ic, r),
    {
        match instruction.opcode() {
            Opcode::POP(rp) => self.pop(rp, ic),
            _ => Err(EmulateError::UnimplementedInstruction { instruction }),
        }
    }

    /// The arithmetic opcodes of the dispatcher.
    fn dispatch_arithmetic(&mut self, instruction: Instruction, ic: &mut Interconnect) -> (r:
        Result<(), EmulateError>)
        requires
            old(ic).wf(),
            instruction.opcode is INX || instruction.opcode is DCX || instruction.opcode is INR
                || instruction.opcode is DCR || instruction.opcode is ADD
                || instruction.opcode is ADC || instruction.opcode is ADI
                || instruction.opcode is ACI || instruction.opcode is SUB
                || instruction.opcode is SBB || instruction.opcode is SUI
                || instruction.opcode is SBI || instruction.opcode is DAD
                || instruction.opcode is RLC || instruction.opcode is RRC
                || instruction.opcode is RAL || instruction.opcode is RAR,
        ensures
            final(ic).wf(),
            spec_dispatch_rel(*old(self), *old(ic), instruction, *final(self), *final(ic), r),
            r is Err ==> *final(ic) == *old(ic),
    {
        match instruction.opcode() {
            Opcode::INX(rp) => self.inx(rp),
            Opcode::DCX(rp) => self.dcx(rp),
            Opcode::INR(reg) => self.inr(reg, ic),
            Opcode::DCR(reg) => self.dcr(reg, ic),
            Opcode::ADD(reg) => self.add(reg, ic),
            Opcode::ADC(reg) => self.adc(reg, ic),
            Opcode::ADI => self.adi(instruction.data()),
            Opcode::ACI => self.aci(instruction.data()),
            Opcode::SUB(reg) => self.sub(reg, ic),
            Opcode::SBB(reg) => self.sbb(reg, ic),
            Opcode::SUI => self.sui(instruction.data()),
            Opcode::SBI => self.sbi(instruction.data()),
            Opcode::DAD(rp) => self.dad(rp),
            Opcode::RLC => self.rlc(),
            Opcode::RRC => self.rrc(),
            Opcode::RAL => self.ral(),
            _ => self.rar(),
        }
    }

    /// The logical opcodes of the dispatcher.
    fn dispatch_logical(&mut self, instruction: Instruction, ic: &Interconnect) -> (r: Result<
        (),
        EmulateError,
    >)
        requires
            ic.wf(),
            instruction.opcode is ANA || instruction.opcode is XRA || instruction.opcode is ORA
                || instruction.opcode is CMP || instruction.opcode is ANI
                || instruction.opcode is XRI || instruction.opcode is ORI
                || instruction.opcode is CPI,
        ensures
            spec_dispatch_rel(*old(self), *ic, instruction, *final(self), *ic, r),
    {
        match instruction.opcode() {
            Opcode::ANA(reg) => self.ana(reg, ic),
            Opcode::XRA(reg) => self.xra(reg, ic),
            Opcode::ORA(reg) => self.ora(reg, ic),
            Opcode::CMP(reg) => self.cmp(reg, ic),
            Opcode::ANI => self.ani(instruction.data()),
            Opcode::XRI => self.xri(instruction.data()),
            Opcode::ORI => self.ori(instruction.data()),
            _ => self.cpi(instruction.data()),
        }
    }

    /// The jump opcodes of the dispatcher.
    fn dispatch_jump(&mut self, instruction: Instruction) -> (r: Result<(), EmulateError>)
        requires
            instruction.opcode is JMP || instruction.opcode is JNZ || instruction.opcode is JZ
                || instruction.opcode is JNC || instruction.opcode is JC
                || instruction.opcode is JPO || instruction.opcode is JPE
                || instruction.opcode is JP || instruction.opcode is JM,
        ensures
            forall|m: Interconnect|
                spec_dispatch_rel(*old(self), m, instruction, *final(self), m, r),
    {
        match instruction.opcode() {
            Opcode::JMP => self.jmp(instruction.data()),
            Opcode::JNZ => {
                let cond = !self.flags.z;
                self.jump_if(cond, instruction.data())
            },
            Opcode::JZ => {
                let cond = self.flags.z;
                self.jump_if(cond, instruction.data())
            },
            Opcode::JNC => {
                let cond = !self.flags.cy;
                self.jump_if(cond, instruction.data())
            },
            Opcode::JC => {
                let cond = self.flags.cy;
                self.jump_if(cond, instruction.data())
            },
            Opcode::JPO => {
                let cond = !self.flags.p;
                self.jump_if(cond, instruction.data())
            },
            Opcode::JPE => {
                let cond = self.flags.p;
                self.jump_if(cond, instruction.data())
            },
            Opcode::JP => {
                let cond = !self.flags.s;
                self.jump_if(cond, instruction.data())
            },
            _ => {
                let cond = self.flags.s;
                self.jump_if(cond, instruction.data())
            },
        }
    }

    /// The call opcodes of the dispatcher.
    fn dispatch_call(&mut self, instruction: Instruction, ic: &mut Interconnect) -> (r: Result<
        (),
        EmulateError,
    >)
        requires
            old(ic).wf(),
            instruction.opcode is CALL || instruction.opcode is CNZ || instruction.opcode is CZ
                || instruction.opcode is CNC || instruction.opcode is CC
                || instruction.opcode is CPO || instruction.opcode is CPE
                || instruction.opcode is CP || instruction.opcode is CM,
        ensures
            final(ic).wf(),
            spec_dispatch_rel(*old(self), *old(ic), instruction, *final(self), *final(ic), r),
            r is Err ==> *final(ic) == *old(ic),
    {
        match instruction.opcode() {
            Opcode::CALL => self.call(instruction.data(), ic),
            Opcode::CNZ => {
                let cond = !self.flags.z;
                self.call_if(cond, instruction.data(), ic)
            },
            Opcode::CZ => {
                let cond = self.flags.z;
                self.call_if(cond, instruction.data(), ic)
            },
            Opcode::CNC => {
                let cond = !self.flags.cy;
                self.call_if(cond, instruction.data(), ic)
            },
            Opcode::CC => {
                let cond = self.flags.cy;
                self.call_if(cond, instruction.data(), ic)
            },
            Opcode::CPO => {
                let cond = !self.flags.p;
                self.call_if(cond, instruction.data(), ic)
            },
            Opcode::CPE => {
                let cond = self.flags.p;
                self.call_if(cond, instruction.data(), ic)
            },
            Opcode::CP => {
                let cond = !self.flags.s;
                self.call_if(cond, instruction.data(), ic)
            },
            _ => {
                let cond = self.flags.s;
                self.call_if(cond, instruction.data(), ic)
            },
        }
    }

    /// The return and restart opcodes of the dispatcher.
    fn dispatch_return(&mut self, instruction: Instruction, ic: &mut Interconnect) -> (r: Result<
        (),
        EmulateError,
    >)
        requires
            old(ic).wf(),
            instruction.opcode is RET || instruction.opcode is RNZ || instruction.opcode is RZ
                || instruction.opcode is RNC || instruction.opcode is RC
                || instruction.opcode is RPO || instruction.opcode is RPE
                || instruction.opcode is RP || instruction.opcode is RM
                || instruction.opcode is RST,
        ensures
            final(ic).wf(),
            spec_dispatch_rel(*old(self), *old(ic), instruction, *final(self), *final(ic), r),
            r is Err ==> *final(ic) == *old(ic),
    {
        match instruction.opcode() {
            Opcode::RET => self.ret(ic),
            Opcode::RNZ => {
                let cond = !self.flags.z;
                self.ret_if(cond, ic)
            },
            Opcode::RZ => {
                let cond = self.flags.z;
                self.ret_if(cond, ic)
            },
            Opcode::RNC => {
                let cond = !self.flags.cy;
                self.ret_if(cond, ic)
            },
            Opcode::RC => {
                let cond = self.flags.cy;
                self.ret_if(cond, ic)
            },
            Opcode::RPO => {
                let cond = !self.flags.p;
                self.ret_if(cond, ic)
            },
            Opcode::RPE => {
                let cond = self.flags.p;
                self.ret_if(cond, ic)
            },
            Opcode::RP => {
                let cond = !self.flags.s;
                self.ret_if(cond, ic)
            },
            Opcode::RM => {
                let cond = self.flags.s;
                self.ret_if(cond, ic)
            },
            _ => self.rst_checked(instruction, ic),
        }
    }

    /// The `RST` arm, separated so the default arm above stays total.
    fn rst_checked(&mut self, instruction: Instruction, ic: &mut Interconnect) -> (r: Result<
        (),
        EmulateError,
    >)
        requires
            old(ic).wf(),
            instruction.opcode is RST,
        ensures
            final(ic).wf(),
            spec_dispatch_rel(*old(self), *old(ic), instruction, *final(self), *final(ic), r),
            r is Err ==> *final(ic) == *old(ic),
    {
        match instruction.opcode() {
            Opcode::RST(n) => self.rst(n, ic),
            _ => Err(EmulateError::UnimplementedInstruction { instruction }),
        }
    }

    /// The control opcodes of the dispatcher, and the opcodes the engine
    /// leaves unimplemented.
    fn dispatch_control(&mut self, instruction: Instruction) -> (r: Result<(), EmulateError>)
        requires
            !(instruction.opcode is LXI || instruction.opcode is LDAX || instruction.opcode is STAX
                || instruction.opcode is LDA || instruction.opcode is STA
                || instruction.opcode is MOV || instruction.opcode is MVI
                || instruction.opcode is XCHG || instruction.opcode is PUSH
                || instruction.opcode is POP || instruction.opcode is INX
                || instruction.opcode is DCX || instruction.opcode is INR
                || instruction.opcode is DCR || instruction.opcode is ADD
                || instruction.opcode is ADC || instruction.opcode is ADI
                || instruction.opcode is ACI || instruction.opcode is SUB
                || instruction.opcode is SBB || instruction.opcode is SUI
                || instruction.opcode is SBI || instruction.opcode is DAD
                || instruction.opcode is RLC || instruction.opcode is RRC
                || instruction.opcode is RAL || instruction.opcode is RAR
                || instruction.opcode is ANA || instruction.opcode is XRA
                || instruction.opcode is ORA || instruction.opcode is CMP
                || instruction.opcode is ANI || instruction.opcode is XRI
                || instruction.opcode is ORI || instruction.opcode is CPI
                || instruction.opcode is JMP || instruction.opcode is JNZ
                || instruction.opcode is JZ || instruction.opcode is JNC
                || instruction.opcode is JC || instruction.opcode is JPO
                || instruction.opcode is JPE || instruction.opcode is JP
                || instruction.opcode is JM || instruction.opcode is CALL
                || instruction.opcode is CNZ || instruction.opcode is CZ
                || instruction.opcode is CNC || instruction.opcode is CC
                || instruction.opcode is CPO || instruction.opcode is CPE
                || instruction.opcode is CP || instruction.opcode is CM
                || instruction.opcode is RET || instruction.opcode is RNZ
                || instruction.opcode is RZ || instruction.opcode is RNC
                || instruction.opcode is RC || instruction.opcode is RPO
                || instruction.opcode is RPE || instruction.opcode is RP
                || instruction.opcode is RM || instruction.opcode is RST
                || instruction.opcode is SHLD || instruction.opcode is LHLD
                || instruction.opcode is XTHL || instruction.opcode is SPHL
                || instruction.opcode is PCHL),
        ensures
            forall|m: Interconnect|
                spec_dispatch_rel(*old(self), m, instruction, *final(self), m, r),
    {
        match instruction.opcode() {
            Opcode::NOP => Ok(()),
            Opcode::OUT => self.out(instruction.data()),
            Opcode::IN => self.input(instruction.data()),
            Opcode::EI => self.ei(),
            Opcode::DI => self.di(),
            Opcode::HLT => self.hlt(),
            _op => Err(EmulateError::UnimplementedInstruction { instruction }),
        }
    }
}

/// Splits a 16-bit value into its high and low bytes.
pub fn split_bytes(bytes: u16) -> (r: (u8, u8))
    ensures
        r.0 == spec_high(bytes),
        r.1 == spec_low(bytes),
{
    ((bytes / 256) as u8, (bytes % 256) as u8)
}

/// Joins a high and a low byte into a 16-bit value.
pub fn concat_bytes(high: u8, low: u8) -> (v: u16)
    ensures
        v == spec_concat(high, low),
{
    (high as u16) * 256 + (low as u16)
}

/// Two's-complement subtraction of one byte from another: the wrapped
/// difference together with the borrow, which is set exactly when the
/// subtrahend exceeds the minuend.
pub fn complement_sub(minuend: u8, subtrahend: u8) -> (r: (u8, bool))
    ensures
        r.0 == crate::i8080::arithmetic::sub8(minuend, subtrahend, 0),
        r.1 == (minuend < subtrahend),
{
    let value: u16 = (minuend as u16 + 256 - subtrahend as u16) % 256;
    (value as u8, minuend < subtrahend)
}

} // verus!
