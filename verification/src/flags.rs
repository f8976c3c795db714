//! The packed flag register F, kept as named boolean fields rather than a
//! raw integer, with the exact byte composition used when F travels through
//! the AF register pair.
//!
//! Bit layout of the composed byte, high to low: Sign (bit 7), Zero (6),
//! an unnamed bit (5), Half-carry (4), an unnamed bit (3), Parity/Overflow
//! (2), Add/Subtract (1), Carry (0). The two unnamed bits carry no meaning
//! but are preserved so that composing and decomposing F is bit-identical.

use vstd::prelude::*;

verus! {

/// The flag register: six named condition bits plus the two unnamed bits
/// of the byte representation.
#[derive(Clone, Copy, PartialEq, Eq, Structural, Debug)]
pub struct Flags {
    /// Sign: bit 7 of the byte form.
    pub s: bool,
    /// Zero: bit 6.
    pub z: bool,
    /// Unnamed bit 5, kept only for bit-identical AF round trips.
    pub b5: bool,
    /// Half-carry: bit 4.
    pub h: bool,
    /// Unnamed bit 3, kept only for bit-identical AF round trips.
    pub b3: bool,
    /// Parity/Overflow: bit 2.
    pub p: bool,
    /// Add/Subtract: bit 1.
    pub n: bool,
    /// Carry: bit 0.
    pub c: bool,
}

/// Selects one of the six named flags for `State::flag_set` / `flag_test`.
#[derive(Clone, Copy, PartialEq, Eq, Structural, Debug)]
pub enum Flag {
    Sign,
    Zero,
    HalfCarry,
    ParityOverflow,
    AddSubtract,
    Carry,
}

/// The value of one named flag.
pub open spec fn flag_value(f: Flags, which: Flag) -> bool {
    match which {
        Flag::Sign => f.s,
        Flag::Zero => f.z,
        Flag::HalfCarry => f.h,
        Flag::ParityOverflow => f.p,
        Flag::AddSubtract => f.n,
        Flag::Carry => f.c,
    }
}

/// The flag register with one named flag replaced.
pub open spec fn flag_with(f: Flags, which: Flag, v: bool) -> Flags {
    match which {
        Flag::Sign => Flags { s: v, ..f },
        Flag::Zero => Flags { z: v, ..f },
        Flag::HalfCarry => Flags { h: v, ..f },
        Flag::ParityOverflow => Flags { p: v, ..f },
        Flag::AddSubtract => Flags { n: v, ..f },
        Flag::Carry => Flags { c: v, ..f },
    }
}

/// The byte form of F: each flag contributes its bit's weight.
#[verifier::opaque]
pub open spec fn flags_to_byte(f: Flags) -> u8 {
    ((if f.s { 128int } else { 0int }) + (if f.z { 64int } else { 0int })
        + (if f.b5 { 32int } else { 0int }) + (if f.h { 16int } else { 0int })
        + (if f.b3 { 8int } else { 0int }) + (if f.p { 4int } else { 0int })
        + (if f.n { 2int } else { 0int }) + (if f.c { 1int } else { 0int })) as u8
}

/// The flag register decomposed from its byte form, bit by bit.
#[verifier::opaque]
pub open spec fn flags_from_byte(b: u8) -> Flags {
    Flags {
        s: b / 128 % 2 == 1,
        z: b / 64 % 2 == 1,
        b5: b / 32 % 2 == 1,
        h: b / 16 % 2 == 1,
        b3: b / 8 % 2 == 1,
        p: b / 4 % 2 == 1,
        n: b / 2 % 2 == 1,
        c: b % 2 == 1,
    }
}

/// All eight bits clear: the power-on value of F.
pub open spec fn flags_clear() -> Flags {
    Flags { s: false, z: false, b5: false, h: false, b3: false, p: false, n: false, c: false }
}

impl Flags {
    /// All eight bits clear.
    pub fn new() -> (r: Flags)
        ensures
            r == flags_clear(),
    {
        Flags { s: false, z: false, b5: false, h: false, b3: false, p: false, n: false, c: false }
    }

    /// Composes the byte form of F.
    pub fn to_byte(&self) -> (r: u8)
        ensures
            r == flags_to_byte(*self),
    {
        proof {
            reveal(flags_to_byte);
        }
        let mut r: u8 = 0;
        if self.s {
            r = r + 128;
        }
        if self.z {
            r = r + 64;
        }
        if self.b5 {
            r = r + 32;
        }
        if self.h {
            r = r + 16;
        }
        if self.b3 {
            r = r + 8;
        }
        if self.p {
            r = r + 4;
        }
        if self.n {
            r = r + 2;
        }
        if self.c {
            r = r + 1;
        }
        r
    }

    /// Decomposes a byte into F.
    pub fn from_byte(b: u8) -> (r: Flags)
        ensures
            r == flags_from_byte(b),
    {
        proof {
            reveal(flags_from_byte);
        }
        Flags {
            s: b / 128 % 2 == 1,
            z: b / 64 % 2 == 1,
            b5: b / 32 % 2 == 1,
            h: b / 16 % 2 == 1,
            b3: b / 8 % 2 == 1,
            p: b / 4 % 2 == 1,
            n: b / 2 % 2 == 1,
            c: b % 2 == 1,
        }
    }
}

/// Decomposing the byte form of F yields F again: composition loses no bit.
pub proof fn lemma_flags_byte_round_trip(f: Flags)
    ensures
        flags_from_byte(flags_to_byte(f)) == f,
{
    reveal(flags_to_byte);
    reveal(flags_from_byte);
}

/// Composing the decomposition of a byte yields the byte again.
#[verifier::rlimit(60)]
pub proof fn lemma_byte_flags_round_trip(b: u8)
    ensures
        flags_to_byte(flags_from_byte(b)) == b,
{
    reveal(flags_to_byte);
    reveal(flags_from_byte);
    assert((if b / 128 % 2 == 1 { 128int } else { 0int }) == 128 * (b / 128 % 2));
    assert((if b / 64 % 2 == 1 { 64int } else { 0int }) == 64 * (b / 64 % 2));
    assert((if b / 32 % 2 == 1 { 32int } else { 0int }) == 32 * (b / 32 % 2));
    assert((if b / 16 % 2 == 1 { 16int } else { 0int }) == 16 * (b / 16 % 2));
    assert((if b / 8 % 2 == 1 { 8int } else { 0int }) == 8 * (b / 8 % 2));
    assert((if b / 4 % 2 == 1 { 4int } else { 0int }) == 4 * (b / 4 % 2));
    assert((if b / 2 % 2 == 1 { 2int } else { 0int }) == 2 * (b / 2 % 2));
    assert((if b % 2 == 1 { 1int } else { 0int }) == b % 2);
    assert(b % 2 + 2 * (b / 2 % 2) == b % 4);
    assert(b % 4 + 4 * (b / 4 % 2) == b % 8);
    assert(b % 8 + 8 * (b / 8 % 2) == b % 16);
    assert(b % 16 + 16 * (b / 16 % 2) == b % 32);
    assert(b % 32 + 32 * (b / 32 % 2) == b % 64);
    assert(b % 64 + 64 * (b / 64 % 2) == b % 128);
    assert(b % 128 + 128 * (b / 128 % 2) == (b as int) % 256);
    assert((b as int) % 256 == b);
}

} // verus!
