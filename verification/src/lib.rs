//! An Intel 8080 instruction-set emulator with verified execution semantics.
//!
//! The crate models the 8080 execution engine: a total opcode decoder, a
//! register file with the five condition flags, an arithmetic/logic unit with
//! 8080 flag semantics, and a memory bus that separates ROM, work RAM and
//! video RAM. Every instruction either commits all of its effects or returns
//! an error and leaves the machine unchanged; what each one does is stated by
//! `i8080::spec_step_rel`.

use vstd::prelude::*;

pub mod disassembler;
pub mod flags;
pub mod i8080;
pub mod instruction;
pub mod interconnect;
pub mod opcode;
pub mod register;

use crate::i8080::error::EmulateError;
use crate::i8080::{lemma_dispatch_err_unchanged, spec_dispatch_rel, spec_step_rel, I8080};
use crate::instruction::{Instruction, InstructionData};
use crate::interconnect::{rom::Rom, Interconnect};
use crate::opcode::{spec_decode, spec_size, Opcode, OpcodeSize};

verus! {

/// A complete machine: the processor and the memory bus it executes
/// against.
#[derive(Debug)]
pub struct Emulator {
    pub cpu: I8080,
    pub interconnect: Interconnect,
}

/// The instruction encoded in memory at `pc`: the opcode byte there,
/// then as many immediate bytes as its size asks for, read in order. A
/// two-byte immediate is little-endian in memory, so the higher byte read
/// becomes the address's high byte.
pub open spec fn spec_fetch(m: Interconnect, pc: u16) -> Instruction {
    let op = spec_decode(m.spec_read(pc));
    let pc1 = ((pc + 1) % 0x10000) as u16;
    let pc2 = ((pc + 2) % 0x10000) as u16;
    match spec_size(op) {
        OpcodeSize::Unary => Instruction {
            opcode: op,
            data: InstructionData { first: None, second: None },
        },
        OpcodeSize::Binary => Instruction {
            opcode: op,
            data: InstructionData { first: Some(m.spec_read(pc1)), second: None },
        },
        OpcodeSize::Trinary => Instruction {
            opcode: op,
            data: InstructionData { first: Some(m.spec_read(pc2)), second: Some(m.spec_read(pc1)) },
        },
    }
}

/// The instruction the emulator will execute next: none once the program
/// counter has run past the program image.
pub open spec fn spec_next_instruction(e: Emulator) -> Option<Instruction> {
    if e.cpu.pc >= e.interconnect.rom_view().len() {
        None
    } else {
        Some(spec_fetch(e.interconnect, e.cpu.pc))
    }
}

/// What one emulator step does: nothing on a halted machine or past the
/// end of the program, otherwise the fetched instruction's step relation.
pub open spec fn spec_emu_step(e0: Emulator, e1: Emulator, r: Result<(), EmulateError>) -> bool {
    if e0.cpu.halted {
        e1 == e0 && r == Ok::<(), EmulateError>(())
    } else {
        match spec_next_instruction(e0) {
            None => e1 == e0 && r == Ok::<(), EmulateError>(()),
            Some(i) => spec_step_rel(e0.cpu, e0.interconnect, i, e1.cpu, e1.interconnect, r),
        }
    }
}

/// Where a machine lands after `k` steps that all succeeded: zero steps
/// change nothing, and each further step is one `spec_emu_step` with an
/// `Ok` result.
pub open spec fn spec_runs_in(e0: Emulator, e1: Emulator, k: nat) -> bool
    decreases k,
{
    if k == 0 {
        e1 == e0
    } else {
        exists|mid: Emulator|
            #[trigger] spec_emu_step(e0, mid, Ok::<(), EmulateError>(())) && spec_runs_in(
                mid,
                e1,
                (k - 1) as nat,
            )
    }
}

/// Why a run loop may stop before its step budget: the machine has
/// halted, the program counter has left the program image, or the next
/// instruction's step relation yields an error — which, by the step
/// relation, changes nothing.
pub open spec fn spec_run_blocked(e: Emulator) -> bool {
    ||| e.cpu.halted
    ||| spec_next_instruction(e) is None
    ||| exists|err: EmulateError|
        spec_step_rel(
            e.cpu,
            e.interconnect,
            spec_next_instruction(e)->0,
            e.cpu,
            e.interconnect,
            Err(err),
        )
}

/// Reaching `mid` in `k` successful steps and stepping once more reaches
/// `e1` in `k + 1`.
proof fn lemma_runs_in_extend(e0: Emulator, mid: Emulator, e1: Emulator, k: nat)
    requires
        spec_runs_in(e0, mid, k),
        spec_emu_step(mid, e1, Ok::<(), EmulateError>(())),
    ensures
        spec_runs_in(e0, e1, (k + 1) as nat),
    decreases k,
{
    if k == 0 {
        assert(spec_emu_step(e0, e1, Ok::<(), EmulateError>(())));
        assert(spec_runs_in(e1, e1, 0));
    } else {
        let m2 = choose|m: Emulator|
            #[trigger] spec_emu_step(e0, m, Ok::<(), EmulateError>(())) && spec_runs_in(
                m,
                mid,
                (k - 1) as nat,
            );
        lemma_runs_in_extend(m2, mid, e1, (k - 1) as nat);
    }
}

impl Emulator {
    /// The bus is well-formed: its regions have their fixed sizes.
    pub open spec fn wf(self) -> bool {
        self.interconnect.wf()
    }

    /// A machine at reset around a program image: every register zero,
    /// flags clear, interrupts enabled, both RAM regions zeroed.
    pub fn new(rom: Rom) -> (e: Emulator)
        requires
            rom.wf(),
        ensures
            e.wf(),
            e.cpu == I8080::spec_initial(),
            e.interconnect.rom_view() == rom.spec_bytes(),
            forall|a: u16| crate::interconnect::is_ram(a) ==> e.interconnect.spec_read(a) == 0,
    {
        Emulator { cpu: I8080::new(), interconnect: Interconnect::new(rom) }
    }

    /// Fetches the instruction at the program counter: the opcode byte
    /// and its immediates, or `None` past the end of the program image.
    pub fn next_instruction(&self) -> (r: Option<Instruction>)
        requires
            self.wf(),
        ensures
            r == spec_next_instruction(*self),
    {
        if self.cpu.pc() as usize >= self.interconnect.rom_len() {
            return None;
        }
        let pc = self.cpu.pc();
        let opcode = Opcode::decode(self.interconnect.read_byte(pc));
        match opcode.size() {
            OpcodeSize::Unary => Some(
                Instruction { opcode, data: InstructionData { first: None, second: None } },
            ),
            OpcodeSize::Binary => {
                let data = self.interconnect.read_byte(pc + 1);
                Some(
                    Instruction {
                        opcode,
                        data: InstructionData { first: Some(data), second: None },
                    },
                )
            },
            OpcodeSize::Trinary => {
                let data_low = self.interconnect.read_byte(pc + 1);
                let data_high = self.interconnect.read_byte(pc + 2);
                Some(
                    Instruction {
                        opcode,
                        data: InstructionData { first: Some(data_high), second: Some(data_low) },
                    },
                )
            },
        }
    }

    /// Executes one instruction and reports how it went: `Ok` on a halted
    /// machine or past the program's end, where nothing happens.
    pub fn try_step(&mut self) -> (r: Result<(), EmulateError>)
        requires
            old(self).wf(),
        ensures
            final(self).wf(),
            spec_emu_step(*old(self), *final(self), r),
    {
        if self.cpu.halted {
            return Ok(());
        }
        if let Some(instruction) = self.next_instruction() {
            self.cpu.emulate_instruction(instruction, &mut self.interconnect)
        } else {
            Ok(())
        }
    }

    /// Executes one instruction, discarding any error; a failing
    /// instruction changes nothing, so the machine simply stays put.
    pub fn step(&mut self)
        requires
            old(self).wf(),
        ensures
            final(self).wf(),
            exists|r: Result<(), EmulateError>| spec_emu_step(*old(self), *final(self), r),
    {
        let ghost e0 = *self;
        let r = self.try_step();
        proof {
            assert(spec_emu_step(e0, *self, r));
        }
    }

    /// Runs until the machine halts, the program counter leaves the
    /// program image, an instruction fails — changing nothing — or
    /// `max_steps` instructions have executed: the machine ends where
    /// some chain of at most `max_steps` successful steps leads, and a
    /// run that ends under budget is blocked there.
    pub fn run(&mut self, max_steps: u64)
        requires
            old(self).wf(),
        ensures
            final(self).wf(),
            exists|k: nat|
                #![auto]
                k <= max_steps && spec_runs_in(*old(self), *final(self), k) && (k < max_steps
                    ==> spec_run_blocked(*final(self))),
    {
        let ghost e0 = *self;
        let ghost mut k: nat = 0;
        let mut steps: u64 = 0;
        while steps < max_steps
            invariant
                e0 == *old(self),
                self.wf(),
                steps <= max_steps,
                k == steps,
                spec_runs_in(e0, *self, k),
            decreases max_steps - steps,
        {
            if self.cpu.halted {
                return;
            }
            let instruction = match self.next_instruction() {
                Some(i) => i,
                None => {
                    return;
                },
            };
            let ghost prev = *self;
            match self.cpu.emulate_instruction(instruction, &mut self.interconnect) {
                Ok(()) => {
                    proof {
                        assert(spec_emu_step(prev, *self, Ok::<(), EmulateError>(())));
                        lemma_runs_in_extend(e0, prev, *self, k);
                        k = k + 1;
                    }
                },
                Err(e) => {
                    proof {
                        assert(*self == prev);
                        assert(spec_step_rel(
                            self.cpu,
                            self.interconnect,
                            instruction,
                            self.cpu,
                            self.interconnect,
                            Err(e),
                        ));
                        assert(spec_run_blocked(*self));
                    }
                    return;
                },
            }
            steps += 1;
        }
    }

    /// Runs like `run`, but stops at the first failing instruction and
    /// returns its error, the machine left exactly as it stood before
    /// that instruction — its next step yields that same error. `Ok`
    /// means the run was never cut short by a fault: the budget ran out,
    /// the machine halted, or the program counter left the image.
    pub fn try_run(&mut self, max_steps: u64) -> (r: Result<(), EmulateError>)
        requires
            old(self).wf(),
        ensures
            final(self).wf(),
            exists|k: nat|
                #![auto]
                k <= max_steps && spec_runs_in(*old(self), *final(self), k) && (r is Ok ==> k
                    == max_steps || final(self).cpu.halted || spec_next_instruction(*final(self)) is None),
            r matches Err(e) ==> !final(self).cpu.halted && spec_next_instruction(*final(self)) is Some
                && spec_step_rel(
                final(self).cpu,
                final(self).interconnect,
                spec_next_instruction(*final(self))->0,
                final(self).cpu,
                final(self).interconnect,
                Err(e),
            ),
    {
        let ghost e0 = *self;
        let ghost mut k: nat = 0;
        let mut steps: u64 = 0;
        while steps < max_steps
            invariant
                e0 == *old(self),
                self.wf(),
                steps <= max_steps,
                k == steps,
                spec_runs_in(e0, *self, k),
            decreases max_steps - steps,
        {
            if self.cpu.halted {
                return Ok(());
            }
            let instruction = match self.next_instruction() {
                Some(i) => i,
                None => {
                    return Ok(());
                },
            };
            let ghost prev = *self;
            match self.cpu.emulate_instruction(instruction, &mut self.interconnect) {
                Ok(()) => {
                    proof {
                        assert(spec_emu_step(prev, *self, Ok::<(), EmulateError>(())));
                        lemma_runs_in_extend(e0, prev, *self, k);
                        k = k + 1;
                    }
                },
                Err(e) => {
                    proof {
                        assert(*self == prev);
                    }
                    return Err(e);
                },
            }
            steps += 1;
        }
        Ok(())
    }

    /// Submits an interrupt: a single opcode byte to execute next. It is
    /// accepted when interrupts are enabled and the byte decodes to a
    /// one-byte instruction — `RST n` is the usual vector; an opcode that
    /// takes immediate bytes cannot arrive through the one-byte interrupt
    /// path and is refused with `Ok(false)`. An accepted opcode executes
    /// without a program-counter advance, as the interrupt acknowledge
    /// feeds the instruction register directly, so a pushed return
    /// address is the interrupted instruction's; the machine wakes from
    /// any halt, and interrupts stay disabled until the next `EI`.
    pub fn inject(&mut self, byte: u8) -> (r: Result<bool, EmulateError>)
        requires
            old(self).wf(),
        ensures
            final(self).wf(),
            !old(self).cpu.interrupts_enabled ==> r == Ok::<bool, EmulateError>(false)
                && *final(self) == *old(self),
            old(self).cpu.interrupts_enabled && spec_size(spec_decode(byte)) != OpcodeSize::Unary
                ==> r == Ok::<bool, EmulateError>(false) && *final(self) == *old(self),
            old(self).cpu.interrupts_enabled && spec_size(spec_decode(byte)) == OpcodeSize::Unary
                ==> ({
                let i = Instruction {
                    opcode: spec_decode(byte),
                    data: InstructionData { first: None, second: None },
                };
                &&& (r matches Err(e) ==> *final(self) == *old(self) && spec_dispatch_rel(
                    old(self).cpu,
                    old(self).interconnect,
                    i,
                    old(self).cpu,
                    old(self).interconnect,
                    Err(e),
                ))
                &&& (r is Ok ==> r == Ok::<bool, EmulateError>(true) && exists|t: I8080|
                    #[trigger] spec_dispatch_rel(
                        old(self).cpu,
                        old(self).interconnect,
                        i,
                        t,
                        final(self).interconnect,
                        Ok::<(), EmulateError>(()),
                    ) && final(self).cpu == (I8080 {
                        interrupts_enabled: false,
                        halted: false,
                        ..t
                    }))
            }),
    {
        if !self.cpu.interrupts_enabled() {
            return Ok(false);
        }
        let opcode = Opcode::decode(byte);
        if let OpcodeSize::Unary = opcode.size() {
            let instruction = Instruction {
                opcode,
                data: InstructionData { first: None, second: None },
            };
            let ghost pre = *self;
            match self.cpu.dispatch(instruction, &mut self.interconnect) {
                Ok(()) => {
                    let ghost t = self.cpu;
                    self.cpu.interrupts_enabled = false;
                    self.cpu.halted = false;
                    proof {
                        assert(spec_dispatch_rel(
                            pre.cpu,
                            pre.interconnect,
                            instruction,
                            t,
                            self.interconnect,
                            Ok::<(), EmulateError>(()),
                        ));
                    }
                    Ok(true)
                },
                Err(e) => {
                    proof {
                        lemma_dispatch_err_unchanged(
                            pre.cpu,
                            pre.interconnect,
                            instruction,
                            self.cpu,
                            self.interconnect,
                            Err(e),
                        );
                        assert(*self == pre);
                    }
                    Err(e)
                },
            }
        } else {
            Ok(false)
        }
    }

    /// The processor.
    pub fn cpu(&self) -> (c: &I8080)
        ensures
            *c == self.cpu,
    {
        &self.cpu
    }

    /// The processor, for mutation.
    pub fn cpu_mut(&mut self) -> (c: &mut I8080)
        ensures
            *c == old(self).cpu,
            *final(self) == (Emulator { cpu: *final(c), ..*old(self) }),
    {
        &mut self.cpu
    }

    /// The memory bus.
    pub fn interconnect(&self) -> (m: &Interconnect)
        ensures
            *m == self.interconnect,
    {
        &self.interconnect
    }

    /// The memory bus, for mutation.
    pub fn interconnect_mut(&mut self) -> (m: &mut Interconnect)
        ensures
            *m == old(self).interconnect,
            *final(self) == (Emulator { interconnect: *final(m), ..*old(self) }),
    {
        &mut self.interconnect
    }
}

} // verus!
