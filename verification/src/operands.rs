//! Operand descriptors: stateless, copyable tags describing where an 8- or
//! 16-bit value lives (a register, a PC-relative immediate, memory behind a
//! computed address, an I/O port) and how to test a branch condition. Each
//! resolves against the register state and the bus at execution time; the
//! descriptor itself never owns data and never outlives one dispatch.

use vstd::prelude::*;

use crate::bus::{Bus, BusV};
use crate::error::Error;
use crate::flags::Flag;
use crate::io::{Dst16, Dst8, Src16, Src8};
use crate::state::{next16_spec, next8_spec, pair_read_spec, pair_write_spec, State};

verus! {

/// Selects one 8-bit general register.
#[derive(Clone, Copy, PartialEq, Eq, Structural, Debug)]
pub enum Register8 {
    A,
    B,
    C,
    D,
    E,
    H,
    L,
}

/// Selects one 16-bit register pair.
#[derive(Clone, Copy, PartialEq, Eq, Structural, Debug)]
pub enum Register16 {
    AF,
    BC,
    DE,
    HL,
    SP,
}

/// The value of one 8-bit register.
pub open spec fn reg8_read(s: State, r: Register8) -> u8 {
    match r {
        Register8::A => s.a,
        Register8::B => s.b,
        Register8::C => s.c,
        Register8::D => s.d,
        Register8::E => s.e,
        Register8::H => s.h,
        Register8::L => s.l,
    }
}

/// The state with one 8-bit register replaced.
pub open spec fn reg8_write(s: State, r: Register8, v: u8) -> State {
    match r {
        Register8::A => State { a: v, ..s },
        Register8::B => State { b: v, ..s },
        Register8::C => State { c: v, ..s },
        Register8::D => State { d: v, ..s },
        Register8::E => State { e: v, ..s },
        Register8::H => State { h: v, ..s },
        Register8::L => State { l: v, ..s },
    }
}

impl Src8 for Register8 {
    open spec fn src8_spec(self, s: State, b: BusV) -> (Result<u8, Error>, State) {
        (Ok(reg8_read(s, self)), s)
    }

    fn src8(&self, state: &mut State, bus: &mut Bus) -> (r: Result<u8, Error>) {
        match *self {
            Register8::A => Ok(state.a),
            Register8::B => Ok(state.b),
            Register8::C => Ok(state.c),
            Register8::D => Ok(state.d),
            Register8::E => Ok(state.e),
            Register8::H => Ok(state.h),
            Register8::L => Ok(state.l),
        }
    }
}

impl Dst8 for Register8 {
    open spec fn dst8_spec(self, s: State, b: BusV, v: u8) -> (Result<(), Error>, State, BusV) {
        (Ok(()), reg8_write(s, self, v), b)
    }

    fn dst8(&self, state: &mut State, bus: &mut Bus, val: u8) -> (r: Result<(), Error>) {
        match *self {
            Register8::A => state.a = val,
            Register8::B => state.b = val,
            Register8::C => state.c = val,
            Register8::D => state.d = val,
            Register8::E => state.e = val,
            Register8::H => state.h = val,
            Register8::L => state.l = val,
        }
        Ok(())
    }
}

impl Src16 for Register16 {
    open spec fn src16_spec(self, s: State, b: BusV) -> (Result<u16, Error>, State) {
        (Ok(pair_read_spec(s, self)), s)
    }

    fn src16(&self, state: &mut State, bus: &mut Bus) -> (r: Result<u16, Error>) {
        Ok(state.pair_read(*self))
    }
}

impl Dst16 for Register16 {
    open spec fn dst16_spec(self, s: State, b: BusV, v: u16) -> (Result<(), Error>, State, BusV) {
        (Ok(()), pair_write_spec(s, self, v), b)
    }

    fn dst16(&self, state: &mut State, bus: &mut Bus, value: u16) -> (r: Result<(), Error>) {
        state.pair_write(*self, value);
        Ok(())
    }
}

/// An 8-bit immediate: consumes one PC-relative byte.
#[derive(Clone, Copy, PartialEq, Eq, Structural, Debug)]
pub struct Immediate8;

impl Src8 for Immediate8 {
    open spec fn src8_spec(self, s: State, b: BusV) -> (Result<u8, Error>, State) {
        next8_spec(s, b)
    }

    fn src8(&self, state: &mut State, bus: &mut Bus) -> (r: Result<u8, Error>) {
        state.next8(bus)
    }
}

/// A 16-bit immediate: consumes two PC-relative bytes, low byte first.
#[derive(Clone, Copy, PartialEq, Eq, Structural, Debug)]
pub struct Immediate16;

impl Src16 for Immediate16 {
    open spec fn src16_spec(self, s: State, b: BusV) -> (Result<u16, Error>, State) {
        next16_spec(s, b)
    }

    fn src16(&self, state: &mut State, bus: &mut Bus) -> (r: Result<u16, Error>) {
        state.next16(bus)
    }
}

/// An address-resolution mode: where the 16-bit target of a memory operand
/// or a jump comes from.
#[derive(Clone, Copy, PartialEq, Eq, Structural, Debug)]
pub enum Address {
    /// A 16-bit immediate operand is the address.
    Direct,
    /// A 16-bit immediate operand is the address (extended addressing).
    ImmediateExtended,
    /// An 8-bit immediate operand is the low byte of a page-zero address.
    ZeroPage,
    /// The contents of BC.
    BC,
    /// The contents of DE.
    DE,
    /// The contents of HL.
    HL,
}

/// What resolving an address mode yields, and the state after the
/// resolution consumed its immediate bytes, if any.
pub open spec fn indirect_spec(a: Address, s: State, b: BusV) -> (Result<u16, Error>, State) {
    match a {
        Address::Direct => next16_spec(s, b),
        Address::ImmediateExtended => next16_spec(s, b),
        Address::ZeroPage => match next8_spec(s, b) {
            (Ok(v), s1) => (Ok(v as u16), s1),
            (Err(e), s1) => (Err(e), s1),
        },
        Address::BC => (Ok(pair_read_spec(s, Register16::BC)), s),
        Address::DE => (Ok(pair_read_spec(s, Register16::DE)), s),
        Address::HL => (Ok(pair_read_spec(s, Register16::HL)), s),
    }
}

impl Address {
    /// Computes the 16-bit target address, consuming immediate bytes as the
    /// mode requires. Address computation is distinct from the memory
    /// access: it never reads or writes the target itself.
    pub fn indirect(&self, state: &mut State, bus: &mut Bus) -> (r: Result<u16, Error>)
        requires
            old(bus)@.wf(),
        ensures
            final(bus)@ == old(bus)@,
            (r, *final(state)) == indirect_spec(*self, *old(state), old(bus)@),
    {
        match *self {
            Address::Direct => state.next16(bus),
            Address::ImmediateExtended => state.next16(bus),
            Address::ZeroPage => match state.next8(bus) {
                Ok(v) => Ok(v as u16),
                Err(e) => Err(e),
            },
            Address::BC => Ok(state.pair_read(Register16::BC)),
            Address::DE => Ok(state.pair_read(Register16::DE)),
            Address::HL => Ok(state.pair_read(Register16::HL)),
        }
    }
}

impl Src8 for Address {
    open spec fn src8_spec(self, s: State, b: BusV) -> (Result<u8, Error>, State) {
        match indirect_spec(self, s, b) {
            (Ok(addr), s1) => (b.read_spec(addr), s1),
            (Err(e), s1) => (Err(e), s1),
        }
    }

    fn src8(&self, state: &mut State, bus: &mut Bus) -> (r: Result<u8, Error>) {
        match self.indirect(state, bus) {
            Ok(addr) => bus.read8(addr),
            Err(e) => Err(e),
        }
    }
}

impl Dst8 for Address {
    open spec fn dst8_spec(self, s: State, b: BusV, v: u8) -> (Result<(), Error>, State, BusV) {
        match indirect_spec(self, s, b) {
            (Ok(addr), s1) => {
                let (wr, b1) = b.write_spec(addr, v);
                (wr, s1, b1)
            },
            (Err(e), s1) => (Err(e), s1, b),
        }
    }

    fn dst8(&self, state: &mut State, bus: &mut Bus, val: u8) -> (r: Result<(), Error>) {
        match self.indirect(state, bus) {
            Ok(addr) => bus.write8(addr, val),
            Err(e) => Err(e),
        }
    }
}

/// Where an 8-bit I/O port number comes from.
#[derive(Clone, Copy, PartialEq, Eq, Structural, Debug)]
pub enum PortAddress {
    /// An 8-bit immediate operand is the port number.
    Immediate,
    /// The contents of register C.
    Indirect,
}

/// What resolving a port-address mode yields, and the state after it
/// consumed its immediate byte, if any.
pub open spec fn port_spec(p: PortAddress, s: State, b: BusV) -> (Result<u8, Error>, State) {
    match p {
        PortAddress::Immediate => next8_spec(s, b),
        PortAddress::Indirect => (Ok(s.c), s),
    }
}

impl PortAddress {
    /// Resolves the 8-bit port number, with no bus access of its own.
    pub fn indirect(&self, state: &mut State, bus: &mut Bus) -> (r: Result<u8, Error>)
        requires
            old(bus)@.wf(),
        ensures
            final(bus)@ == old(bus)@,
            (r, *final(state)) == port_spec(*self, *old(state), old(bus)@),
    {
        match *self {
            PortAddress::Immediate => state.next8(bus),
            PortAddress::Indirect => Ok(state.c),
        }
    }
}

/// A branch-condition predicate. A condition consults exactly one flag bit,
/// or is the always-true predicate; it never touches the bus and never
/// changes any state.
pub trait Condition: Sized {
    /// Whether the condition holds in the given state.
    spec fn holds(self, s: State) -> bool;

    /// Evaluates the condition against the flag register.
    fn check(&self, state: &State) -> (r: bool)
        ensures
            r == self.holds(*state),
    ;
}

/// The always-true predicate: unconditional control flow.
impl Condition for () {
    open spec fn holds(self, s: State) -> bool {
        true
    }

    fn check(&self, state: &State) -> (r: bool) {
        proof {
            assert(self.holds(*state));
        }
        true
    }
}

/// Carry flag set.
#[allow(non_camel_case_types)]
#[derive(Clone, Copy, PartialEq, Eq, Structural, Debug)]
pub struct CARRY;

impl Condition for CARRY {
    open spec fn holds(self, s: State) -> bool {
        s.f.c
    }

    fn check(&self, state: &State) -> (r: bool) {
        proof {
            assert(self.holds(*state) == state.f.c);
        }
        state.flag_test(Flag::Carry)
    }
}

/// Carry flag clear.
#[allow(non_camel_case_types)]
#[derive(Clone, Copy, PartialEq, Eq, Structural, Debug)]
pub struct NON_CARRY;

impl Condition for NON_CARRY {
    open spec fn holds(self, s: State) -> bool {
        !s.f.c
    }

    fn check(&self, state: &State) -> (r: bool) {
        proof {
            assert(self.holds(*state) == !state.f.c);
        }
        !state.flag_test(Flag::Carry)
    }
}

/// Zero flag set.
#[allow(non_camel_case_types)]
#[derive(Clone, Copy, PartialEq, Eq, Structural, Debug)]
pub struct ZERO;

impl Condition for ZERO {
    open spec fn holds(self, s: State) -> bool {
        s.f.z
    }

    fn check(&self, state: &State) -> (r: bool) {
        proof {
            assert(self.holds(*state) == state.f.z);
        }
        state.flag_test(Flag::Zero)
    }
}

/// Zero flag clear.
#[allow(non_camel_case_types)]
#[derive(Clone, Copy, PartialEq, Eq, Structural, Debug)]
pub struct NON_ZERO;

impl Condition for NON_ZERO {
    open spec fn holds(self, s: State) -> bool {
        !s.f.z
    }

    fn check(&self, state: &State) -> (r: bool) {
        proof {
            assert(self.holds(*state) == !state.f.z);
        }
        !state.flag_test(Flag::Zero)
    }
}

} // verus!
