//! The five 8080 condition flags and their packing into a program status byte.

use vstd::prelude::*;

verus! {

/// The condition flags of the 8080: zero, sign, parity, carry and
/// auxiliary carry.
#[derive(Clone, Copy, Debug, PartialEq, Eq, Structural)]
pub struct ConditionalFlags {
    pub z: bool,
    pub s: bool,
    pub p: bool,
    pub cy: bool,
    pub ac: bool,
}

/// True when the number of one bits in `v` is odd.
pub open spec fn odd_parity(v: u8) -> bool
    decreases v,
{
    if v == 0 {
        false
    } else {
        (v % 2 == 1) != odd_parity(v / 2)
    }
}

/// True when the number of one bits in `v` is even: the 8080 parity flag.
pub open spec fn parity_even(v: u8) -> bool {
    !odd_parity(v)
}

/// The packed flags byte, bits 7..0: `S Z 0 AC 0 P 1 CY`.
pub open spec fn spec_flags_to_byte(f: ConditionalFlags) -> u8 {
    ((if f.s {
        128int
    } else {
        0int
    }) + (if f.z {
        64int
    } else {
        0int
    }) + (if f.ac {
        16int
    } else {
        0int
    }) + (if f.p {
        4int
    } else {
        0int
    }) + (if f.cy {
        1int
    } else {
        0int
    }) + 2) as u8
}

/// The flags read back out of a packed status byte.
pub open spec fn spec_flags_of_byte(b: u8) -> ConditionalFlags {
    ConditionalFlags {
        s: (b / 128) % 2 == 1,
        z: (b / 64) % 2 == 1,
        ac: (b / 16) % 2 == 1,
        p: (b / 4) % 2 == 1,
        cy: b % 2 == 1,
    }
}

impl ConditionalFlags {
    /// All flags clear, the state at machine reset.
    pub fn new() -> (f: ConditionalFlags)
        ensures
            f == (ConditionalFlags { z: false, s: false, p: false, cy: false, ac: false }),
    {
        ConditionalFlags { z: false, s: false, p: false, cy: false, ac: false }
    }

    /// True when `num` has an even number of one bits.
    pub fn check_parity(num: u8) -> (r: bool)
        ensures
            r == parity_even(num),
    {
        let mut bytes = num;
        let mut parity: u8 = 0;
        while bytes > 0
            invariant
                parity <= 1,
                ((parity == 1) != odd_parity(bytes)) == odd_parity(num),
            decreases bytes,
        {
            proof {
                assert(odd_parity(bytes) == ((bytes % 2 == 1) != odd_parity(bytes / 2)));
            }
            parity = (parity + bytes % 2) % 2;
            bytes /= 2;
        }
        parity == 0
    }

    pub fn z(&self) -> (r: bool)
        ensures
            r == self.z,
    {
        self.z
    }

    pub fn s(&self) -> (r: bool)
        ensures
            r == self.s,
    {
        self.s
    }

    pub fn p(&self) -> (r: bool)
        ensures
            r == self.p,
    {
        self.p
    }

    pub fn cy(&self) -> (r: bool)
        ensures
            r == self.cy,
    {
        self.cy
    }

    pub fn ac(&self) -> (r: bool)
        ensures
            r == self.ac,
    {
        self.ac
    }

    /// Sets the zero, sign and parity flags from an 8-bit result, leaving
    /// the two carry flags alone.
    pub(crate) fn set_non_carry_flags(&mut self, value: u8)
        ensures
            *final(self) == (ConditionalFlags {
                z: value == 0,
                s: value >= 128,
                p: parity_even(value),
                ..*old(self)
            }),
    {
        self.z = value == 0;
        self.s = value >= 128;
        self.p = ConditionalFlags::check_parity(value);
    }
}

impl From<ConditionalFlags> for u8 {
    /// Packs the flags into the status byte `S Z 0 AC 0 P 1 CY`.
    fn from(flag: ConditionalFlags) -> (b: u8)
        ensures
            b == spec_flags_to_byte(flag),
    {
        let s: u8 = if flag.s {
            128
        } else {
            0
        };
        let z: u8 = if flag.z {
            64
        } else {
            0
        };
        let ac: u8 = if flag.ac {
            16
        } else {
            0
        };
        let p: u8 = if flag.p {
            4
        } else {
            0
        };
        let c: u8 = if flag.cy {
            1
        } else {
            0
        };
        s + z + ac + p + c + 2
    }
}

impl vstd::std_specs::convert::FromSpecImpl<ConditionalFlags> for u8 {
    open spec fn obeys_from_spec() -> bool {
        true
    }

    open spec fn from_spec(flag: ConditionalFlags) -> u8 {
        spec_flags_to_byte(flag)
    }
}

impl From<u8> for ConditionalFlags {
    /// Unpacks a status byte; the constant bits 1, 3 and 5 are ignored.
    fn from(byte: u8) -> (f: ConditionalFlags)
        ensures
            f == spec_flags_of_byte(byte),
    {
        ConditionalFlags {
            s: (byte / 128) % 2 == 1,
            z: (byte / 64) % 2 == 1,
            ac: (byte / 16) % 2 == 1,
            p: (byte / 4) % 2 == 1,
            cy: byte % 2 == 1,
        }
    }
}

impl vstd::std_specs::convert::FromSpecImpl<u8> for ConditionalFlags {
    open spec fn obeys_from_spec() -> bool {
        true
    }

    open spec fn from_spec(byte: u8) -> ConditionalFlags {
        spec_flags_of_byte(byte)
    }
}

/// Packing the flags into the status byte and unpacking it again yields the
/// original flags.
pub proof fn lemma_flags_round_trip(f: ConditionalFlags)
    ensures
        spec_flags_of_byte(spec_flags_to_byte(f)) == f,
{
}

} // verus!
