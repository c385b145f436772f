//! The five 8080 condition bits: Zero, Sign, Parity, Carry and
//! Auxiliary-Carry, with the packed PSW byte form used by PUSH PSW and
//! POP PSW, and the predicates the conditional instructions test.

use vstd::prelude::*;

use crate::arith::{parity_of, popcount};

verus! {

/// The condition bits. All five are independent single-bit values.
#[derive(Clone, Copy, PartialEq, Eq, Structural, Debug)]
pub struct Flags {
    /// Set iff the last flag-affecting result's low 8 bits equal 0.
    pub z: bool,
    /// Set iff bit 7 of the last flag-affecting result is 1.
    pub s: bool,
    /// Set iff the last flag-affecting result has even parity.
    pub p: bool,
    /// The carry (or borrow) out of the last additive, subtractive or shift
    /// operation that affects it.
    pub cy: bool,
    /// The carry from bit 3 to bit 4 (borrow from bit 4 for subtraction).
    pub ac: bool,
}

/// Whether an 8-bit result sets the Zero bit.
pub open spec fn z_of(r: u8) -> bool {
    r == 0
}

/// Whether an 8-bit result sets the Sign bit.
pub open spec fn s_of(r: u8) -> bool {
    r >= 0x80
}

/// Whether an 8-bit result sets the Parity bit (1 = even parity).
pub open spec fn p_of(r: u8) -> bool {
    parity_of(r)
}

/// Z, S and P updated from an 8-bit result; CY and AC kept.
pub open spec fn with_zsp(f: Flags, r: u8) -> Flags {
    Flags { z: z_of(r), s: s_of(r), p: p_of(r), ..f }
}

/// The packed PSW byte: bit 0 = CY, bit 1 = 1 (fixed), bit 2 = P,
/// bit 3 = 0, bit 4 = AC, bit 5 = 0, bit 6 = Z, bit 7 = S.
pub open spec fn packed_of(f: Flags) -> u8 {
    ((if f.s {
        0x80int
    } else {
        0int
    }) + (if f.z {
        0x40int
    } else {
        0int
    }) + (if f.ac {
        0x10int
    } else {
        0int
    }) + (if f.p {
        4int
    } else {
        0int
    }) + 2 + (if f.cy {
        1int
    } else {
        0int
    })) as u8
}

/// The flags read back from a packed PSW byte; bits 1, 3 and 5 are ignored.
pub open spec fn unpacked_of(b: u8) -> Flags {
    Flags {
        cy: b as int % 2 == 1,
        p: (b as int / 4) % 2 == 1,
        ac: (b as int / 16) % 2 == 1,
        z: (b as int / 64) % 2 == 1,
        s: (b as int / 128) % 2 == 1,
    }
}

/// The condition encodings of Jcc/Ccc/Rcc: 0 NZ, 1 Z, 2 NC, 3 C, 4 PO,
/// 5 PE, 6 P (plus), 7 M (minus).
pub open spec fn spec_cond(f: Flags, code: int) -> bool {
    if code == 0 {
        !f.z
    } else if code == 1 {
        f.z
    } else if code == 2 {
        !f.cy
    } else if code == 3 {
        f.cy
    } else if code == 4 {
        !f.p
    } else if code == 5 {
        f.p
    } else if code == 6 {
        !f.s
    } else {
        f.s
    }
}

impl Flags {
    /// All five bits clear, the reset state.
    pub fn new() -> (f: Flags)
        ensures
            f == (Flags { z: false, s: false, p: false, cy: false, ac: false }),
    {
        Flags { z: false, s: false, p: false, cy: false, ac: false }
    }

    /// Updates Z, S and P from an 8-bit result, leaving CY and AC alone.
    pub fn set_zsp(&mut self, r: u8)
        ensures
            *final(self) == with_zsp(*old(self), r),
    {
        self.z = r == 0;
        self.s = r >= 0x80;
        self.p = crate::arith::parity_even(r);
    }

    /// The packed PSW byte form of the flags.
    pub fn packed(&self) -> (b: u8)
        ensures
            b == packed_of(*self),
    {
        (if self.s {
            0x80u8
        } else {
            0u8
        }) + (if self.z {
            0x40u8
        } else {
            0u8
        }) + (if self.ac {
            0x10u8
        } else {
            0u8
        }) + (if self.p {
            4u8
        } else {
            0u8
        }) + 2 + (if self.cy {
            1u8
        } else {
            0u8
        })
    }

    /// Replaces the flags by those read from a packed PSW byte.
    pub fn unpack(&mut self, b: u8)
        ensures
            *final(self) == unpacked_of(b),
    {
        self.cy = b % 2 == 1;
        self.p = (b / 4) % 2 == 1;
        self.ac = (b / 16) % 2 == 1;
        self.z = (b / 64) % 2 == 1;
        self.s = (b / 128) % 2 == 1;
    }

    /// The Z condition: the Zero bit is set.
    pub fn is_z(&self) -> (r: bool)
        ensures
            r == self.z,
    {
        self.z
    }

    /// The NZ condition: the Zero bit is clear.
    pub fn is_nz(&self) -> (r: bool)
        ensures
            r == !self.z,
    {
        !self.z
    }

    /// The C condition: the Carry bit is set.
    pub fn is_cy(&self) -> (r: bool)
        ensures
            r == self.cy,
    {
        self.cy
    }

    /// The NC condition: the Carry bit is clear.
    pub fn is_nc(&self) -> (r: bool)
        ensures
            r == !self.cy,
    {
        !self.cy
    }

    /// The P (plus) condition: the Sign bit is clear.
    pub fn is_plus(&self) -> (r: bool)
        ensures
            r == !self.s,
    {
        !self.s
    }

    /// The M (minus) condition: the Sign bit is set.
    pub fn is_minus(&self) -> (r: bool)
        ensures
            r == self.s,
    {
        self.s
    }

    /// The PE condition: even parity, the Parity bit set.
    pub fn is_pe(&self) -> (r: bool)
        ensures
            r == self.p,
    {
        self.p
    }

    /// The PO condition: odd parity, the Parity bit clear.
    pub fn is_po(&self) -> (r: bool)
        ensures
            r == !self.p,
    {
        !self.p
    }

    /// The condition with the given 3-bit encoding.
    pub fn cond(&self, code: u8) -> (r: bool)
        requires
            code < 8,
        ensures
            r == spec_cond(*self, code as int),
    {
        if code == 0 {
            !self.z
        } else if code == 1 {
            self.z
        } else if code == 2 {
            !self.cy
        } else if code == 3 {
            self.cy
        } else if code == 4 {
            !self.p
        } else if code == 5 {
            self.p
        } else if code == 6 {
            !self.s
        } else {
            self.s
        }
    }
}

/// The Parity bit is set exactly when the number of set bits in the low
/// byte of the result is even.
pub proof fn lemma_parity_popcount(r: u8)
    ensures
        p_of(r) <==> popcount(r) % 2 == 0,
{
}

/// Unpacking a packed PSW byte restores the five flags exactly.
pub proof fn lemma_unpack_packed(f: Flags)
    ensures
        unpacked_of(packed_of(f)) == f,
{
}

/// Packing the flags read from a byte gives the byte back with bit 1 forced
/// to 1, provided bits 3 and 5 (which the packed form holds at 0) are clear.
pub proof fn lemma_packed_unpack(b: u8)
    requires
        (b as int / 8) % 2 == 0,
        (b as int / 32) % 2 == 0,
    ensures
        packed_of(unpacked_of(b)) == (b | 0x02),
{
    assert(((if (b as int / 128) % 2 == 1 {
        0x80int
    } else {
        0int
    }) + (if (b as int / 64) % 2 == 1 {
        0x40int
    } else {
        0int
    }) + (if (b as int / 16) % 2 == 1 {
        0x10int
    } else {
        0int
    }) + (if (b as int / 4) % 2 == 1 {
        4int
    } else {
        0int
    }) + 2 + (if b as int % 2 == 1 {
        1int
    } else {
        0int
    })) == (b | 0x02)) by (bit_vector)
        requires
            (b as int / 8) % 2 == 0,
            (b as int / 32) % 2 == 0,
    ;
}

} // verus!
