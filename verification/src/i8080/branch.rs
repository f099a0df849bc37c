//! Branch instructions: jumps, calls, returns and restarts, plain and
//! conditional.

use vstd::prelude::*;

use crate::i8080::error::EmulateError;
use crate::i8080::{spec_concat, spec_high, spec_low, wrap_inc16, I8080};
use crate::instruction::InstructionData;
use crate::interconnect::{mem_written_two, same_mem, Interconnect};
use crate::opcode::Opcode;
use crate::register::Register;

verus! {

/// What `JMP a16` does: the program counter takes the immediate address.
pub open spec fn jmp_rel(
    s: I8080,
    d: InstructionData,
    s1: I8080,
    r: Result<(), EmulateError>,
) -> bool {
    if d.first is Some && d.second is Some {
        r == Ok::<(), EmulateError>(()) && s1 == (I8080 {
            pc: spec_concat(d.first->0, d.second->0),
            ..s
        })
    } else {
        r == Err::<(), EmulateError>(
            EmulateError::InvalidInstructionData { opcode: Opcode::JMP, data: d },
        ) && s1 == s
    }
}

/// What a conditional jump does: a jump when the condition holds, and a
/// plain fall-through when it does not.
pub open spec fn jcc_rel(
    s: I8080,
    d: InstructionData,
    cond: bool,
    s1: I8080,
    r: Result<(), EmulateError>,
) -> bool {
    if cond {
        jmp_rel(s, d, s1, r)
    } else {
        r == Ok::<(), EmulateError>(()) && s1 == s
    }
}

/// What `CALL a16` does: the program counter — already advanced past the
/// call — is pushed, and the immediate address takes its place.
pub open spec fn call_rel(
    s: I8080,
    m: Interconnect,
    d: InstructionData,
    s1: I8080,
    m1: Interconnect,
    r: Result<(), EmulateError>,
) -> bool {
    if d.first is Some && d.second is Some {
        if s.sp < 0x2002 {
            r == Err::<(), EmulateError>(EmulateError::StackOverflow) && s1 == s && same_mem(m, m1)
        } else {
            r == Ok::<(), EmulateError>(()) && s1 == (I8080 {
                sp: (s.sp - 2) as u16,
                pc: spec_concat(d.first->0, d.second->0),
                ..s
            }) && mem_written_two(
                m,
                m1,
                (s.sp - 1) as u16,
                spec_high(s.pc),
                (s.sp - 2) as u16,
                spec_low(s.pc),
            )
        }
    } else {
        r == Err::<(), EmulateError>(
            EmulateError::InvalidInstructionData { opcode: Opcode::CALL, data: d },
        ) && s1 == s && same_mem(m, m1)
    }
}

/// What a conditional call does: a call when the condition holds, and a
/// plain fall-through when it does not.
pub open spec fn ccc_rel(
    s: I8080,
    m: Interconnect,
    d: InstructionData,
    cond: bool,
    s1: I8080,
    m1: Interconnect,
    r: Result<(), EmulateError>,
) -> bool {
    if cond {
        call_rel(s, m, d, s1, m1, r)
    } else {
        r == Ok::<(), EmulateError>(()) && s1 == s && same_mem(m, m1)
    }
}

/// What `RET` does: the program counter is popped — low byte from the
/// stack pointer, high byte from above it — and SP moves up two.
pub open spec fn ret_rel(
    s: I8080,
    m: Interconnect,
    s1: I8080,
    r: Result<(), EmulateError>,
) -> bool {
    r == Ok::<(), EmulateError>(()) && s1 == (I8080 {
        pc: spec_concat(m.spec_read(wrap_inc16(s.sp)), m.spec_read(s.sp)),
        sp: wrap_inc16(wrap_inc16(s.sp)),
        ..s
    })
}

/// What a conditional return does: a return when the condition holds, and
/// a plain fall-through when it does not.
pub open spec fn rcc_rel(
    s: I8080,
    m: Interconnect,
    cond: bool,
    s1: I8080,
    r: Result<(), EmulateError>,
) -> bool {
    if cond {
        ret_rel(s, m, s1, r)
    } else {
        r == Ok::<(), EmulateError>(()) && s1 == s
    }
}

/// What `RST n` does: the program counter is pushed and execution
/// restarts at `n * 8`; the interrupt entry path.
pub open spec fn rst_rel(
    s: I8080,
    m: Interconnect,
    n: u8,
    s1: I8080,
    m1: Interconnect,
    r: Result<(), EmulateError>,
) -> bool {
    if s.sp < 0x2002 {
        r == Err::<(), EmulateError>(EmulateError::StackOverflow) && s1 == s && same_mem(m, m1)
    } else {
        r == Ok::<(), EmulateError>(()) && s1 == (I8080 {
            sp: (s.sp - 2) as u16,
            pc: (8 * (n as u16)) as u16,
            ..s
        }) && mem_written_two(
            m,
            m1,
            (s.sp - 1) as u16,
            spec_high(s.pc),
            (s.sp - 2) as u16,
            spec_low(s.pc),
        )
    }
}

impl I8080 {
    /// `JMP a16`: jumps to the immediate address.
    pub(crate) fn jmp(&mut self, data: InstructionData) -> (r: Result<(), EmulateError>)
        ensures
            jmp_rel(*old(self), data, *final(self), r),
    {
        if let (Some(hi), Some(lo)) = data.tuple() {
            self.pc = crate::i8080::concat_bytes(hi, lo);
            Ok(())
        } else {
            Err(EmulateError::InvalidInstructionData { opcode: Opcode::JMP, data })
        }
    }

    /// A conditional jump: jumps when `cond` holds, else falls through.
    pub(crate) fn jump_if(&mut self, cond: bool, data: InstructionData) -> (r: Result<
        (),
        EmulateError,
    >)
        ensures
            jcc_rel(*old(self), data, cond, *final(self), r),
    {
        if cond {
            self.jmp(data)
        } else {
            Ok(())
        }
    }

    /// `JNZ a16`: jumps when the zero flag is clear.
    pub(crate) fn jnz(&mut self, data: InstructionData) -> (r: Result<(), EmulateError>)
        ensures
            jcc_rel(*old(self), data, !old(self).flags.z, *final(self), r),
    {
        let cond = !self.flags.z;
        self.jump_if(cond, data)
    }

    /// `CALL a16`: pushes the program counter and jumps to the immediate
    /// address.
    pub(crate) fn call(&mut self, data: InstructionData, interconnect: &mut Interconnect) -> (r:
        Result<(), EmulateError>)
        requires
            old(interconnect).wf(),
        ensures
            final(interconnect).wf(),
            call_rel(*old(self), *old(interconnect), data, *final(self), *final(interconnect), r),
            r is Err ==> *final(interconnect) == *old(interconnect),
    {
        if let (Some(hi), Some(lo)) = data.tuple() {
            let addr = crate::i8080::concat_bytes(hi, lo);
            let pc = self.pc;
            match self.push_u16(pc, interconnect) {
                Ok(()) => {
                    self.pc = addr;
                    Ok(())
                },
                Err(e) => Err(e),
            }
        } else {
            Err(EmulateError::InvalidInstructionData { opcode: Opcode::CALL, data })
        }
    }

    /// A conditional call: calls when `cond` holds, else falls through.
    pub(crate) fn call_if(
        &mut self,
        cond: bool,
        data: InstructionData,
        interconnect: &mut Interconnect,
    ) -> (r: Result<(), EmulateError>)
        requires
            old(interconnect).wf(),
        ensures
            final(interconnect).wf(),
            ccc_rel(
                *old(self),
                *old(interconnect),
                data,
                cond,
                *final(self),
                *final(interconnect),
                r,
            ),
            r is Err ==> *final(interconnect) == *old(interconnect),
    {
        if cond {
            self.call(data, interconnect)
        } else {
            Ok(())
        }
    }

    /// `RET`: pops the program counter.
    pub(crate) fn ret(&mut self, interconnect: &Interconnect) -> (r: Result<(), EmulateError>)
        requires
            interconnect.wf(),
        ensures
            ret_rel(*old(self), *interconnect, *final(self), r),
    {
        let addr = match self.pop_u16(interconnect) {
            Ok(v) => v,
            Err(e) => {
                return Err(e);
            },
        };
        self.pc = addr;
        Ok(())
    }

    /// A conditional return: returns when `cond` holds, else falls
    /// through.
    pub(crate) fn ret_if(&mut self, cond: bool, interconnect: &Interconnect) -> (r: Result<
        (),
        EmulateError,
    >)
        requires
            interconnect.wf(),
        ensures
            rcc_rel(*old(self), *interconnect, cond, *final(self), r),
    {
        if cond {
            self.ret(interconnect)
        } else {
            Ok(())
        }
    }

    /// `RST n`: pushes the program counter and restarts at `n * 8`.
    pub(crate) fn rst(&mut self, n: u8, interconnect: &mut Interconnect) -> (r: Result<
        (),
        EmulateError,
    >)
        requires
            old(interconnect).wf(),
        ensures
            final(interconnect).wf(),
            rst_rel(*old(self), *old(interconnect), n, *final(self), *final(interconnect), r),
            r is Err ==> *final(interconnect) == *old(interconnect),
    {
        let pc = self.pc;
        match self.push_u16(pc, interconnect) {
            Ok(()) => {
                self.pc = 8 * (n as u16);
                Ok(())
            },
            Err(e) => Err(e),
        }
    }
}

} // verus!
