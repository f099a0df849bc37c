//! Register names as they appear inside decoded opcodes.

use vstd::prelude::*;

verus! {

/// A register operand decoded from an opcode byte. `M` stands for the byte
/// of memory addressed by the pair (H,L); `SP` is the 16-bit stack pointer.
#[derive(Clone, Copy, Debug, PartialEq, Eq, Structural)]
pub enum Register {
    A,
    B,
    C,
    D,
    E,
    H,
    L,
    M,
    SP,
}

/// The second half of a register pair: C for B, E for D, L for H.
pub open spec fn spec_pair_of(r: Register) -> Option<Register> {
    match r {
        Register::B => Some(Register::C),
        Register::D => Some(Register::E),
        Register::H => Some(Register::L),
        _ => None,
    }
}

impl Register {
    /// The register holding the low byte of the pair that starts at `self`,
    /// for the three pairs (B,C), (D,E) and (H,L).
    pub fn get_pair(&self) -> (r: Option<Register>)
        ensures
            r == spec_pair_of(*self),
    {
        match self {
            Register::B => Some(Register::C),
            Register::D => Some(Register::E),
            Register::H => Some(Register::L),
            _ => None,
        }
    }

    /// True for the seven byte registers; false for `M` and `SP`.
    pub fn is_8bit(&self) -> (r: bool)
        ensures
            r == (*self != Register::M && *self != Register::SP),
    {
        match self {
            Register::A => true,
            Register::B => true,
            Register::C => true,
            Register::D => true,
            Register::E => true,
            Register::H => true,
            Register::L => true,
            Register::M => false,
            Register::SP => false,
        }
    }
}

} // verus!
