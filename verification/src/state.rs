//! The CPU-visible register and flag state: the eight 8-bit general
//! registers and their shadow bank, the index registers, SP and PC, the
//! interrupt flip-flops and mode, and the packed flag register. Register
//! pairs are big-endian views over two 8-bit halves; PC-relative fetches
//! advance PC by the operand width; the stack grows downward, SP moving by
//! one per byte. All address arithmetic wraps modulo 65536, deliberately:
//! that mirrors the hardware and is never an error.

use vstd::prelude::*;

use crate::bus::{Bus, BusV};
use crate::error::Error;
use crate::flags::{flag_value, flag_with, flags_clear, flags_from_byte, flags_to_byte, Flag, Flags};
use crate::operands::Register16;

verus! {

/// The big-endian composition of a register pair: high byte times 256 plus
/// low byte.
pub open spec fn pair(hi: u8, lo: u8) -> u16 {
    (hi * 256 + lo) as u16
}

/// The high half of a 16-bit value.
pub open spec fn hi8(v: u16) -> u8 {
    (v / 256) as u8
}

/// The low half of a 16-bit value.
pub open spec fn lo8(v: u16) -> u8 {
    (v % 256) as u8
}

/// The complete register file.
#[derive(Clone, Copy, PartialEq, Eq, Structural, Debug)]
pub struct State {
    pub a: u8,
    pub f: Flags,
    pub b: u8,
    pub c: u8,
    pub d: u8,
    pub e: u8,
    pub h: u8,
    pub l: u8,
    /// Shadow bank.
    pub a_: u8,
    pub f_: Flags,
    pub b_: u8,
    pub c_: u8,
    pub d_: u8,
    pub e_: u8,
    pub h_: u8,
    pub l_: u8,
    /// Interrupt vector base register.
    pub i: u8,
    /// Memory refresh register.
    pub r: u8,
    pub ix: u16,
    pub iy: u16,
    pub sp: u16,
    pub pc: u16,
    /// Interrupt enable flip-flops.
    pub iff1: bool,
    pub iff2: bool,
    /// Interrupt mode selector (0, 1 or 2).
    pub interrupt_mode: u8,
}

/// The power-on state: every register zero, every flag clear, interrupts
/// disabled, mode 0.
pub open spec fn power_on() -> State {
    State {
        a: 0,
        f: flags_clear(),
        b: 0,
        c: 0,
        d: 0,
        e: 0,
        h: 0,
        l: 0,
        a_: 0,
        f_: flags_clear(),
        b_: 0,
        c_: 0,
        d_: 0,
        e_: 0,
        h_: 0,
        l_: 0,
        i: 0,
        r: 0,
        ix: 0,
        iy: 0,
        sp: 0,
        pc: 0,
        iff1: false,
        iff2: false,
        interrupt_mode: 0,
    }
}

impl Default for State {
    /// The power-on state.
    fn default() -> (r: State)
        ensures
            r == power_on(),
    {
        State {
            a: 0,
            f: Flags::new(),
            b: 0,
            c: 0,
            d: 0,
            e: 0,
            h: 0,
            l: 0,
            a_: 0,
            f_: Flags::new(),
            b_: 0,
            c_: 0,
            d_: 0,
            e_: 0,
            h_: 0,
            l_: 0,
            i: 0,
            r: 0,
            ix: 0,
            iy: 0,
            sp: 0,
            pc: 0,
            iff1: false,
            iff2: false,
            interrupt_mode: 0,
        }
    }
}

/// The value of one register pair, composed high:low. The AF pair composes
/// the accumulator with the byte form of F.
pub open spec fn pair_read_spec(s: State, name: Register16) -> u16 {
    match name {
        Register16::AF => pair(s.a, flags_to_byte(s.f)),
        Register16::BC => pair(s.b, s.c),
        Register16::DE => pair(s.d, s.e),
        Register16::HL => pair(s.h, s.l),
        Register16::SP => s.sp,
    }
}

/// The state with one register pair replaced, the value split high:low.
/// Writing AF decomposes the low byte into F bit-identically.
pub open spec fn pair_write_spec(s: State, name: Register16, v: u16) -> State {
    match name {
        Register16::AF => State { a: hi8(v), f: flags_from_byte(lo8(v)), ..s },
        Register16::BC => State { b: hi8(v), c: lo8(v), ..s },
        Register16::DE => State { d: hi8(v), e: lo8(v), ..s },
        Register16::HL => State { h: hi8(v), l: lo8(v), ..s },
        Register16::SP => State { sp: v, ..s },
    }
}

/// What a PC-relative byte fetch yields and the state it leaves: PC has
/// advanced by one, wrapping, whatever the read's outcome.
pub open spec fn next8_spec(s: State, b: BusV) -> (Result<u8, Error>, State) {
    (b.read_spec(s.pc), State { pc: s.pc.wrapping_add(1), ..s })
}

/// What a PC-relative word fetch yields (low byte first) and the state it
/// leaves: PC has advanced by two, wrapping, whatever the reads' outcome.
pub open spec fn next16_spec(s: State, b: BusV) -> (Result<u16, Error>, State) {
    let s1 = State { pc: s.pc.wrapping_add(2), ..s };
    match b.read_spec(s.pc) {
        Ok(lb) => match b.read_spec(s.pc.wrapping_add(1)) {
            Ok(hb) => (Ok(pair(hb, lb)), s1),
            Err(e) => (Err(e), s1),
        },
        Err(e) => (Err(e), s1),
    }
}

/// What pushing one byte does: SP decrements first (wrapping), then the
/// byte is written at the new SP. SP stays decremented even when the write
/// lands outside RAM and fails.
pub open spec fn push8_spec(s: State, b: BusV, v: u8) -> (Result<(), Error>, State, BusV) {
    let sp1 = s.sp.wrapping_sub(1);
    let (wr, b1) = b.write_spec(sp1, v);
    (wr, State { sp: sp1, ..s }, b1)
}

/// What popping one byte yields: the byte at SP, then SP increments
/// (wrapping). A failed read leaves SP where it was.
pub open spec fn pop8_spec(s: State, b: BusV) -> (Result<u8, Error>, State) {
    match b.read_spec(s.sp) {
        Ok(v) => (Ok(v), State { sp: s.sp.wrapping_add(1), ..s }),
        Err(e) => (Err(e), s),
    }
}

/// What pushing a word does: high byte first (at the higher address), then
/// the low byte. A failure stops the sequence where it happened.
pub open spec fn push16_spec(s: State, b: BusV, v: u16) -> (Result<(), Error>, State, BusV) {
    let (r1, s1, b1) = push8_spec(s, b, hi8(v));
    match r1 {
        Ok(_) => push8_spec(s1, b1, lo8(v)),
        Err(e) => (Err(e), s1, b1),
    }
}

/// What popping a word yields: low byte first, then the high byte, exactly
/// inverting `push16_spec`.
pub open spec fn pop16_spec(s: State, b: BusV) -> (Result<u16, Error>, State) {
    match pop8_spec(s, b) {
        (Ok(lb), s1) => match pop8_spec(s1, b) {
            (Ok(hb), s2) => (Ok(pair(hb, lb)), s2),
            (Err(e), s2) => (Err(e), s2),
        },
        (Err(e), s1) => (Err(e), s1),
    }
}

impl State {
    /// Reads one register pair, composed high:low.
    pub fn pair_read(&self, name: Register16) -> (r: u16)
        ensures
            r == pair_read_spec(*self, name),
    {
        match name {
            Register16::AF => (self.a as u16) * 256 + (self.f.to_byte() as u16),
            Register16::BC => (self.b as u16) * 256 + (self.c as u16),
            Register16::DE => (self.d as u16) * 256 + (self.e as u16),
            Register16::HL => (self.h as u16) * 256 + (self.l as u16),
            Register16::SP => self.sp,
        }
    }

    /// Writes one register pair, split high:low.
    pub fn pair_write(&mut self, name: Register16, val: u16)
        ensures
            *final(self) == pair_write_spec(*old(self), name, val),
    {
        let hi: u8 = (val / 256) as u8;
        let lo: u8 = (val % 256) as u8;
        match name {
            Register16::AF => {
                *self = State { a: hi, f: Flags::from_byte(lo), ..*self };
            },
            Register16::BC => {
                *self = State { b: hi, c: lo, ..*self };
            },
            Register16::DE => {
                *self = State { d: hi, e: lo, ..*self };
            },
            Register16::HL => {
                *self = State { h: hi, l: lo, ..*self };
            },
            Register16::SP => {
                *self = State { sp: val, ..*self };
            },
        }
    }

    /// Reads the BC pair.
    pub fn bc(&self) -> (r: u16)
        ensures
            r == pair_read_spec(*self, Register16::BC),
    {
        self.pair_read(Register16::BC)
    }

    /// Writes the BC pair.
    pub fn set_bc(&mut self, val: u16)
        ensures
            *final(self) == pair_write_spec(*old(self), Register16::BC, val),
    {
        self.pair_write(Register16::BC, val);
    }

    /// Reads the DE pair.
    pub fn de(&self) -> (r: u16)
        ensures
            r == pair_read_spec(*self, Register16::DE),
    {
        self.pair_read(Register16::DE)
    }

    /// Writes the DE pair.
    pub fn set_de(&mut self, val: u16)
        ensures
            *final(self) == pair_write_spec(*old(self), Register16::DE, val),
    {
        self.pair_write(Register16::DE, val);
    }

    /// Reads the HL pair.
    pub fn hl(&self) -> (r: u16)
        ensures
            r == pair_read_spec(*self, Register16::HL),
    {
        self.pair_read(Register16::HL)
    }

    /// Writes the HL pair.
    pub fn set_hl(&mut self, val: u16)
        ensures
            *final(self) == pair_write_spec(*old(self), Register16::HL, val),
    {
        self.pair_write(Register16::HL, val);
    }

    /// Tests one named flag bit.
    pub fn flag_test(&self, which: Flag) -> (r: bool)
        ensures
            r == flag_value(self.f, which),
    {
        match which {
            Flag::Sign => self.f.s,
            Flag::Zero => self.f.z,
            Flag::HalfCarry => self.f.h,
            Flag::ParityOverflow => self.f.p,
            Flag::AddSubtract => self.f.n,
            Flag::Carry => self.f.c,
        }
    }

    /// Sets or clears one named flag bit, touching nothing else.
    pub fn flag_set(&mut self, which: Flag, v: bool)
        ensures
            *final(self) == (State { f: flag_with(old(self).f, which, v), ..*old(self) }),
    {
        match which {
            Flag::Sign => self.f.s = v,
            Flag::Zero => self.f.z = v,
            Flag::HalfCarry => self.f.h = v,
            Flag::ParityOverflow => self.f.p = v,
            Flag::AddSubtract => self.f.n = v,
            Flag::Carry => self.f.c = v,
        }
    }

    /// Fetches the byte at PC and advances PC by one, wrapping. PC advances
    /// whatever the read's outcome; no other register changes.
    pub fn next8(&mut self, bus: &Bus) -> (r: Result<u8, Error>)
        requires
            bus@.wf(),
        ensures
            (r, *final(self)) == next8_spec(*old(self), bus@),
    {
        let addr = self.pc;
        self.pc = self.pc.wrapping_add(1);
        bus.read8(addr)
    }

    /// Fetches the word at PC, low byte first, and advances PC by two,
    /// wrapping. PC advances whatever the reads' outcome.
    pub fn next16(&mut self, bus: &Bus) -> (r: Result<u16, Error>)
        requires
            bus@.wf(),
        ensures
            (r, *final(self)) == next16_spec(*old(self), bus@),
    {
        let address = self.pc;
        self.pc = self.pc.wrapping_add(2);
        let lb = match bus.read8(address) {
            Ok(v) => v,
            Err(e) => {
                return Err(e);
            },
        };
        let hb = match bus.read8(address.wrapping_add(1)) {
            Ok(v) => v,
            Err(e) => {
                return Err(e);
            },
        };
        Ok((hb as u16) * 256 + (lb as u16))
    }

    /// Pushes one byte: SP decrements first, then the byte is written at
    /// the new SP.
    pub fn push8(&mut self, bus: &mut Bus, val: u8) -> (r: Result<(), Error>)
        requires
            old(bus)@.wf(),
        ensures
            final(bus)@.wf(),
            (r, *final(self), final(bus)@) == push8_spec(*old(self), old(bus)@, val),
    {
        self.sp = self.sp.wrapping_sub(1);
        bus.write8(self.sp, val)
    }

    /// Pops one byte: reads at SP, then SP increments. A failed read leaves
    /// SP where it was.
    pub fn pop8(&mut self, bus: &mut Bus) -> (r: Result<u8, Error>)
        requires
            old(bus)@.wf(),
        ensures
            final(bus)@ == old(bus)@,
            (r, *final(self)) == pop8_spec(*old(self), old(bus)@),
    {
        match bus.read8(self.sp) {
            Ok(v) => {
                self.sp = self.sp.wrapping_add(1);
                Ok(v)
            },
            Err(e) => Err(e),
        }
    }

    /// Pushes a word: high byte first (at the higher address), then the low
    /// byte, so that a pop inverts it exactly.
    pub fn push16(&mut self, bus: &mut Bus, val: u16) -> (r: Result<(), Error>)
        requires
            old(bus)@.wf(),
        ensures
            final(bus)@.wf(),
            (r, *final(self), final(bus)@) == push16_spec(*old(self), old(bus)@, val),
    {
        let lsb = (val % 256) as u8;
        let msb = (val / 256) as u8;
        match self.push8(bus, msb) {
            Ok(_) => self.push8(bus, lsb),
            Err(e) => Err(e),
        }
    }

    /// Pops a word: low byte first, then the high byte.
    pub fn pop16(&mut self, bus: &mut Bus) -> (r: Result<u16, Error>)
        requires
            old(bus)@.wf(),
        ensures
            final(bus)@ == old(bus)@,
            (r, *final(self)) == pop16_spec(*old(self), old(bus)@),
    {
        let lsb = match self.pop8(bus) {
            Ok(v) => v,
            Err(e) => {
                return Err(e);
            },
        };
        let msb = match self.pop8(bus) {
            Ok(v) => v,
            Err(e) => {
                return Err(e);
            },
        };
        Ok((msb as u16) * 256 + (lsb as u16))
    }
}

/// Pushing a word and popping it back yields exactly the pushed value and
/// restores SP to its pre-push value, leaving every register as it was,
/// whenever the two stack bytes land inside the RAM window.
pub proof fn lemma_push_pop_round_trip(s: State, b: BusV, v: u16)
    requires
        b.wf(),
        crate::bus::RAM_BASE <= s.sp.wrapping_sub(1) < crate::bus::RAM_END,
        crate::bus::RAM_BASE <= s.sp.wrapping_sub(2) < crate::bus::RAM_END,
    ensures
        push16_spec(s, b, v).0 is Ok,
        pop16_spec(push16_spec(s, b, v).1, push16_spec(s, b, v).2) == (Ok::<u16, Error>(v), s),
{
    let (r1, s1, b1) = push16_spec(s, b, v);
    let (r2, s2) = pop16_spec(s1, b1);
    assert(s2 =~= s);
}

/// Writing a pair then reading it back yields exactly the written value,
/// and writing back what was read changes nothing: pair composition is
/// bit-identical in both directions, for every pair name including AF.
pub proof fn lemma_pair_round_trip(s: State, name: Register16, v: u16)
    ensures
        pair_read_spec(pair_write_spec(s, name, v), name) == v,
        pair_write_spec(pair_write_spec(s, name, v), name, pair_read_spec(
            pair_write_spec(s, name, v),
            name,
        )) == pair_write_spec(s, name, v),
{
    crate::flags::lemma_byte_flags_round_trip(lo8(v));
    crate::flags::lemma_flags_byte_round_trip(flags_from_byte(lo8(v)));
}

} // verus!
