//! The decoder/dispatcher: a pure function from a fetched opcode byte to
//! one operation invocation with concrete operand descriptors. Two tables,
//! no cross-call state: the primary table covers the 256 one-byte
//! opcodes; the extended-prefix byte transfers to a second, independently
//! defined table. Each table is one complete, closed mapping held as pure
//! data: every entry stands alone, so adding an opcode never perturbs the
//! others. An opcode absent from its active table is a fatal decode error
//! carrying the opcode value, the table, and the address the byte was
//! fetched from.

use vstd::prelude::*;

use crate::bus::{Bus, BusV};
use crate::error::{Error, OpcodeTable};
use crate::executor;
use crate::io::{Dst16, Dst8, Src16, Src8};
use crate::operands::{
    Address, Condition, Immediate16, Immediate8, PortAddress, Register16, Register8, CARRY,
    NON_CARRY, NON_ZERO, ZERO,
};
use crate::state::{next8_spec, State};

verus! {

/// An 8-bit source operand as it appears in a table entry.
#[derive(Clone, Copy, PartialEq, Eq, Structural, Debug)]
pub enum Operand8 {
    /// An 8-bit register.
    Reg(Register8),
    /// A PC-relative immediate byte.
    Immediate,
    /// The byte in memory behind a resolved address.
    Mem(Address),
}

impl Src8 for Operand8 {
    open spec fn src8_spec(self, s: State, b: BusV) -> (Result<u8, Error>, State) {
        match self {
            Operand8::Reg(r) => r.src8_spec(s, b),
            Operand8::Immediate => Immediate8.src8_spec(s, b),
            Operand8::Mem(a) => a.src8_spec(s, b),
        }
    }

    fn src8(&self, state: &mut State, bus: &mut Bus) -> (r: Result<u8, Error>) {
        match *self {
            Operand8::Reg(r) => r.src8(state, bus),
            Operand8::Immediate => Immediate8.src8(state, bus),
            Operand8::Mem(a) => a.src8(state, bus),
        }
    }
}

/// An 8-bit destination operand as it appears in a table entry.
#[derive(Clone, Copy, PartialEq, Eq, Structural, Debug)]
pub enum Dest8 {
    /// An 8-bit register.
    Reg(Register8),
    /// The byte in memory behind a resolved address.
    Mem(Address),
}

impl Dst8 for Dest8 {
    open spec fn dst8_spec(self, s: State, b: BusV, v: u8) -> (Result<(), Error>, State, BusV) {
        match self {
            Dest8::Reg(r) => r.dst8_spec(s, b, v),
            Dest8::Mem(a) => a.dst8_spec(s, b, v),
        }
    }

    fn dst8(&self, state: &mut State, bus: &mut Bus, val: u8) -> (r: Result<(), Error>) {
        match *self {
            Dest8::Reg(r) => r.dst8(state, bus, val),
            Dest8::Mem(a) => a.dst8(state, bus, val),
        }
    }
}

/// A 16-bit source operand as it appears in a table entry.
#[derive(Clone, Copy, PartialEq, Eq, Structural, Debug)]
pub enum Operand16 {
    /// A register pair.
    Reg(Register16),
    /// A PC-relative immediate word.
    Immediate,
}

impl Src16 for Operand16 {
    open spec fn src16_spec(self, s: State, b: BusV) -> (Result<u16, Error>, State) {
        match self {
            Operand16::Reg(r) => r.src16_spec(s, b),
            Operand16::Immediate => Immediate16.src16_spec(s, b),
        }
    }

    fn src16(&self, state: &mut State, bus: &mut Bus) -> (r: Result<u16, Error>) {
        match *self {
            Operand16::Reg(r) => r.src16(state, bus),
            Operand16::Immediate => Immediate16.src16(state, bus),
        }
    }
}

/// A branch condition as it appears in a table entry.
#[derive(Clone, Copy, PartialEq, Eq, Structural, Debug)]
pub enum Cond {
    Always,
    Carry,
    NonCarry,
    Zero,
    NonZero,
}

impl Condition for Cond {
    open spec fn holds(self, s: State) -> bool {
        match self {
            Cond::Always => true,
            Cond::Carry => s.f.c,
            Cond::NonCarry => !s.f.c,
            Cond::Zero => s.f.z,
            Cond::NonZero => !s.f.z,
        }
    }

    fn check(&self, state: &State) -> (r: bool) {
        match *self {
            Cond::Always => ().check(state),
            Cond::Carry => CARRY.check(state),
            Cond::NonCarry => NON_CARRY.check(state),
            Cond::Zero => ZERO.check(state),
            Cond::NonZero => NON_ZERO.check(state),
        }
    }
}

/// One fully specified operation invocation: an opcode table entry.
#[derive(Clone, Copy, PartialEq, Eq, Structural, Debug)]
pub enum Instr {
    Load8(Dest8, Operand8),
    Load16(Register16, Operand16),
    Push16(Register16),
    Pop16(Register16),
    Ldi,
    Ldir,
    Cp(Operand8),
    DisableInterrupts,
    SetInterruptMode(u8),
    Inc16(Register16),
    Jump(Address, Cond),
    Jr(Cond),
    Call(Address, Cond),
    Ret,
    Out(PortAddress, Operand8),
}

/// A primary-table entry: either one operation, or the transfer to the
/// extended table.
#[derive(Clone, Copy, PartialEq, Eq, Structural, Debug)]
pub enum Entry {
    Op(Instr),
    Prefix,
}

/// What one operation invocation does, composed from the operations'
/// specifications.
pub open spec fn execute_spec(s: State, b: BusV, instr: Instr) -> (Result<(), Error>, State, BusV) {
    match instr {
        Instr::Load8(d, src) => executor::load8_spec(s, b, d, src),
        Instr::Load16(d, src) => executor::load16_spec(s, b, d, src),
        Instr::Push16(rp) => executor::push16_op_spec(s, b, rp),
        Instr::Pop16(rp) => executor::pop16_op_spec(s, b, rp),
        Instr::Ldi => executor::ldi_spec(s, b),
        Instr::Ldir => executor::ldir_spec(s, b),
        Instr::Cp(src) => executor::cp_spec(s, b, src),
        Instr::DisableInterrupts => (Ok(()), executor::disable_interrupts_spec(s), b),
        Instr::SetInterruptMode(m) => (Ok(()), executor::set_interrupt_mode_spec(s, m), b),
        Instr::Inc16(rp) => (Ok(()), executor::inc16_spec(s, rp), b),
        Instr::Jump(a, c) => executor::jump_spec(s, b, a, c),
        Instr::Jr(c) => executor::jr_spec(s, b, c),
        Instr::Call(a, c) => executor::call_spec(s, b, a, c),
        Instr::Ret => executor::ret_spec(s, b),
        Instr::Out(p, src) => executor::out_op_spec(s, b, p, src),
    }
}

/// Performs one decoded operation.
pub fn execute(state: &mut State, bus: &mut Bus, instr: Instr) -> (r: Result<(), Error>)
    requires
        old(bus)@.wf(),
    ensures
        final(bus)@.wf(),
        (r, *final(state), final(bus)@) == execute_spec(*old(state), old(bus)@, instr),
{
    match instr {
        Instr::Load8(d, src) => executor::load8(state, bus, d, src),
        Instr::Load16(d, src) => executor::load16(state, bus, d, src),
        Instr::Push16(rp) => executor::push16(state, bus, rp),
        Instr::Pop16(rp) => executor::pop16(state, bus, rp),
        Instr::Ldi => executor::ldi(state, bus),
        Instr::Ldir => executor::ldir(state, bus),
        Instr::Cp(src) => executor::cp(state, bus, src),
        Instr::DisableInterrupts => {
            executor::disable_interrupts(state);
            Ok(())
        },
        Instr::SetInterruptMode(m) => {
            executor::set_interrupt_mode(state, m);
            Ok(())
        },
        Instr::Inc16(rp) => {
            executor::inc16(state, rp);
            Ok(())
        },
        Instr::Jump(a, c) => executor::jump(state, bus, a, c),
        Instr::Jr(c) => executor::jr(state, bus, c),
        Instr::Call(a, c) => executor::call(state, bus, a, c),
        Instr::Ret => executor::ret(state, bus),
        Instr::Out(p, src) => executor::out(state, bus, p, src),
    }
}

/// The primary opcode table: one complete, closed mapping from each of
/// the 256 opcode byte values to an operation invocation, the extended
/// prefix, or nothing.
pub open spec fn lookup_spec(opcode: u8) -> Option<Entry> {
    match opcode {
        0x3e => Some(Entry::Op(Instr::Load8(Dest8::Reg(Register8::A), Operand8::Immediate))),
        0x06 => Some(Entry::Op(Instr::Load8(Dest8::Reg(Register8::B), Operand8::Immediate))),
        0x0a => Some(Entry::Op(Instr::Load8(Dest8::Reg(Register8::A), Operand8::Mem(Address::BC)))),
        0x0e => Some(Entry::Op(Instr::Load8(Dest8::Reg(Register8::C), Operand8::Immediate))),
        0x16 => Some(Entry::Op(Instr::Load8(Dest8::Reg(Register8::D), Operand8::Immediate))),
        0x1a => Some(Entry::Op(Instr::Load8(Dest8::Reg(Register8::A), Operand8::Mem(Address::DE)))),
        0x1e => Some(Entry::Op(Instr::Load8(Dest8::Reg(Register8::E), Operand8::Immediate))),
        0x26 => Some(Entry::Op(Instr::Load8(Dest8::Reg(Register8::H), Operand8::Immediate))),
        0x2e => Some(Entry::Op(Instr::Load8(Dest8::Reg(Register8::L), Operand8::Immediate))),
        0x40 => Some(Entry::Op(Instr::Load8(Dest8::Reg(Register8::B), Operand8::Reg(Register8::B)))),
        0x41 => Some(Entry::Op(Instr::Load8(Dest8::Reg(Register8::B), Operand8::Reg(Register8::C)))),
        0x42 => Some(Entry::Op(Instr::Load8(Dest8::Reg(Register8::B), Operand8::Reg(Register8::D)))),
        0x43 => Some(Entry::Op(Instr::Load8(Dest8::Reg(Register8::B), Operand8::Reg(Register8::E)))),
        0x44 => Some(Entry::Op(Instr::Load8(Dest8::Reg(Register8::B), Operand8::Reg(Register8::H)))),
        0x45 => Some(Entry::Op(Instr::Load8(Dest8::Reg(Register8::B), Operand8::Reg(Register8::L)))),
        0x47 => Some(Entry::Op(Instr::Load8(Dest8::Reg(Register8::B), Operand8::Reg(Register8::A)))),
        0x48 => Some(Entry::Op(Instr::Load8(Dest8::Reg(Register8::C), Operand8::Reg(Register8::B)))),
        0x49 => Some(Entry::Op(Instr::Load8(Dest8::Reg(Register8::C), Operand8::Reg(Register8::C)))),
        0x4a => Some(Entry::Op(Instr::Load8(Dest8::Reg(Register8::C), Operand8::Reg(Register8::D)))),
        0x4b => Some(Entry::Op(Instr::Load8(Dest8::Reg(Register8::C), Operand8::Reg(Register8::E)))),
        0x4c => Some(Entry::Op(Instr::Load8(Dest8::Reg(Register8::C), Operand8::Reg(Register8::H)))),
        0x4d => Some(Entry::Op(Instr::Load8(Dest8::Reg(Register8::C), Operand8::Reg(Register8::L)))),
        0x4f => Some(Entry::Op(Instr::Load8(Dest8::Reg(Register8::C), Operand8::Reg(Register8::A)))),
        0x50 => Some(Entry::Op(Instr::Load8(Dest8::Reg(Register8::D), Operand8::Reg(Register8::B)))),
        0x51 => Some(Entry::Op(Instr::Load8(Dest8::Reg(Register8::D), Operand8::Reg(Register8::C)))),
        0x52 => Some(Entry::Op(Instr::Load8(Dest8::Reg(Register8::D), Operand8::Reg(Register8::D)))),
        0x53 => Some(Entry::Op(Instr::Load8(Dest8::Reg(Register8::D), Operand8::Reg(Register8::E)))),
        0x54 => Some(Entry::Op(Instr::Load8(Dest8::Reg(Register8::D), Operand8::Reg(Register8::H)))),
        0x55 => Some(Entry::Op(Instr::Load8(Dest8::Reg(Register8::D), Operand8::Reg(Register8::L)))),
        0x57 => Some(Entry::Op(Instr::Load8(Dest8::Reg(Register8::D), Operand8::Reg(Register8::A)))),
        0x58 => Some(Entry::Op(Instr::Load8(Dest8::Reg(Register8::E), Operand8::Reg(Register8::B)))),
        0x59 => Some(Entry::Op(Instr::Load8(Dest8::Reg(Register8::E), Operand8::Reg(Register8::C)))),
        0x5a => Some(Entry::Op(Instr::Load8(Dest8::Reg(Register8::E), Operand8::Reg(Register8::D)))),
        0x5b => Some(Entry::Op(Instr::Load8(Dest8::Reg(Register8::E), Operand8::Reg(Register8::E)))),
        0x5e => Some(Entry::Op(Instr::Load8(Dest8::Reg(Register8::C), Operand8::Reg(Register8::H)))),
        0x5d => Some(Entry::Op(Instr::Load8(Dest8::Reg(Register8::E), Operand8::Reg(Register8::L)))),
        0x5f => Some(Entry::Op(Instr::Load8(Dest8::Reg(Register8::E), Operand8::Reg(Register8::A)))),
        0x60 => Some(Entry::Op(Instr::Load8(Dest8::Reg(Register8::H), Operand8::Reg(Register8::B)))),
        0x61 => Some(Entry::Op(Instr::Load8(Dest8::Reg(Register8::H), Operand8::Reg(Register8::C)))),
        0x62 => Some(Entry::Op(Instr::Load8(Dest8::Reg(Register8::H), Operand8::Reg(Register8::D)))),
        0x63 => Some(Entry::Op(Instr::Load8(Dest8::Reg(Register8::H), Operand8::Reg(Register8::E)))),
        0x64 => Some(Entry::Op(Instr::Load8(Dest8::Reg(Register8::H), Operand8::Reg(Register8::H)))),
        0x65 => Some(Entry::Op(Instr::Load8(Dest8::Reg(Register8::H), Operand8::Reg(Register8::L)))),
        0x67 => Some(Entry::Op(Instr::Load8(Dest8::Reg(Register8::H), Operand8::Reg(Register8::A)))),
        0x68 => Some(Entry::Op(Instr::Load8(Dest8::Reg(Register8::L), Operand8::Reg(Register8::B)))),
        0x69 => Some(Entry::Op(Instr::Load8(Dest8::Reg(Register8::L), Operand8::Reg(Register8::C)))),
        0x6a => Some(Entry::Op(Instr::Load8(Dest8::Reg(Register8::L), Operand8::Reg(Register8::D)))),
        0x6b => Some(Entry::Op(Instr::Load8(Dest8::Reg(Register8::L), Operand8::Reg(Register8::E)))),
        0x6e => Some(Entry::Op(Instr::Load8(Dest8::Reg(Register8::L), Operand8::Reg(Register8::H)))),
        0x6d => Some(Entry::Op(Instr::Load8(Dest8::Reg(Register8::L), Operand8::Reg(Register8::L)))),
        0x6f => Some(Entry::Op(Instr::Load8(Dest8::Reg(Register8::L), Operand8::Reg(Register8::A)))),
        0x78 => Some(Entry::Op(Instr::Load8(Dest8::Reg(Register8::A), Operand8::Reg(Register8::B)))),
        0x79 => Some(Entry::Op(Instr::Load8(Dest8::Reg(Register8::A), Operand8::Reg(Register8::C)))),
        0x7a => Some(Entry::Op(Instr::Load8(Dest8::Reg(Register8::A), Operand8::Reg(Register8::D)))),
        0x7b => Some(Entry::Op(Instr::Load8(Dest8::Reg(Register8::A), Operand8::Reg(Register8::E)))),
        0x7e => Some(Entry::Op(Instr::Load8(Dest8::Reg(Register8::A), Operand8::Reg(Register8::H)))),
        0x7d => Some(Entry::Op(Instr::Load8(Dest8::Reg(Register8::A), Operand8::Reg(Register8::L)))),
        0x7f => Some(Entry::Op(Instr::Load8(Dest8::Reg(Register8::A), Operand8::Reg(Register8::A)))),
        0x01 => Some(Entry::Op(Instr::Load16(Register16::BC, Operand16::Immediate))),
        0x11 => Some(Entry::Op(Instr::Load16(Register16::DE, Operand16::Immediate))),
        0x21 => Some(Entry::Op(Instr::Load16(Register16::HL, Operand16::Immediate))),
        0x31 => Some(Entry::Op(Instr::Load16(Register16::SP, Operand16::Immediate))),
        0xc5 => Some(Entry::Op(Instr::Push16(Register16::BC))),
        0xd5 => Some(Entry::Op(Instr::Push16(Register16::DE))),
        0xe5 => Some(Entry::Op(Instr::Push16(Register16::HL))),
        0xf5 => Some(Entry::Op(Instr::Push16(Register16::AF))),
        0xc1 => Some(Entry::Op(Instr::Pop16(Register16::BC))),
        0xd1 => Some(Entry::Op(Instr::Pop16(Register16::DE))),
        0xe1 => Some(Entry::Op(Instr::Pop16(Register16::HL))),
        0xf1 => Some(Entry::Op(Instr::Pop16(Register16::AF))),
        0xb8 => Some(Entry::Op(Instr::Cp(Operand8::Reg(Register8::B)))),
        0xb9 => Some(Entry::Op(Instr::Cp(Operand8::Reg(Register8::C)))),
        0xba => Some(Entry::Op(Instr::Cp(Operand8::Reg(Register8::D)))),
        0xbb => Some(Entry::Op(Instr::Cp(Operand8::Reg(Register8::E)))),
        0xbc => Some(Entry::Op(Instr::Cp(Operand8::Reg(Register8::H)))),
        0xbd => Some(Entry::Op(Instr::Cp(Operand8::Reg(Register8::L)))),
        0xbf => Some(Entry::Op(Instr::Cp(Operand8::Reg(Register8::A)))),
        0xfe => Some(Entry::Op(Instr::Cp(Operand8::Immediate))),
        0xf3 => Some(Entry::Op(Instr::DisableInterrupts)),
        0x03 => Some(Entry::Op(Instr::Inc16(Register16::BC))),
        0x13 => Some(Entry::Op(Instr::Inc16(Register16::DE))),
        0x23 => Some(Entry::Op(Instr::Inc16(Register16::HL))),
        0x33 => Some(Entry::Op(Instr::Inc16(Register16::SP))),
        0xc3 => Some(Entry::Op(Instr::Jump(Address::Direct, Cond::Always))),
        0xc2 => Some(Entry::Op(Instr::Jump(Address::Direct, Cond::NonZero))),
        0xca => Some(Entry::Op(Instr::Jump(Address::Direct, Cond::Zero))),
        0x18 => Some(Entry::Op(Instr::Jr(Cond::Always))),
        0x20 => Some(Entry::Op(Instr::Jr(Cond::NonZero))),
        0x28 => Some(Entry::Op(Instr::Jr(Cond::Zero))),
        0x30 => Some(Entry::Op(Instr::Jr(Cond::NonCarry))),
        0x38 => Some(Entry::Op(Instr::Jr(Cond::Carry))),
        0xcc => Some(Entry::Op(Instr::Call(Address::Direct, Cond::Zero))),
        0xc4 => Some(Entry::Op(Instr::Call(Address::Direct, Cond::NonZero))),
        0xcd => Some(Entry::Op(Instr::Call(Address::Direct, Cond::Always))),
        0xc9 => Some(Entry::Op(Instr::Ret)),
        0xd3 => Some(Entry::Op(Instr::Out(PortAddress::Immediate, Operand8::Reg(Register8::A)))),
        0xed => Some(Entry::Prefix),
        _ => None,
    }
}

/// Looks an opcode up in the primary table.
pub fn lookup(opcode: u8) -> (r: Option<Entry>)
    ensures
        r == lookup_spec(opcode),
{
    match opcode {
        0x3e => Some(Entry::Op(Instr::Load8(Dest8::Reg(Register8::A), Operand8::Immediate))),
        0x06 => Some(Entry::Op(Instr::Load8(Dest8::Reg(Register8::B), Operand8::Immediate))),
        0x0a => Some(Entry::Op(Instr::Load8(Dest8::Reg(Register8::A), Operand8::Mem(Address::BC)))),
        0x0e => Some(Entry::Op(Instr::Load8(Dest8::Reg(Register8::C), Operand8::Immediate))),
        0x16 => Some(Entry::Op(Instr::Load8(Dest8::Reg(Register8::D), Operand8::Immediate))),
        0x1a => Some(Entry::Op(Instr::Load8(Dest8::Reg(Register8::A), Operand8::Mem(Address::DE)))),
        0x1e => Some(Entry::Op(Instr::Load8(Dest8::Reg(Register8::E), Operand8::Immediate))),
        0x26 => Some(Entry::Op(Instr::Load8(Dest8::Reg(Register8::H), Operand8::Immediate))),
        0x2e => Some(Entry::Op(Instr::Load8(Dest8::Reg(Register8::L), Operand8::Immediate))),
        0x40 => Some(Entry::Op(Instr::Load8(Dest8::Reg(Register8::B), Operand8::Reg(Register8::B)))),
        0x41 => Some(Entry::Op(Instr::Load8(Dest8::Reg(Register8::B), Operand8::Reg(Register8::C)))),
        0x42 => Some(Entry::Op(Instr::Load8(Dest8::Reg(Register8::B), Operand8::Reg(Register8::D)))),
        0x43 => Some(Entry::Op(Instr::Load8(Dest8::Reg(Register8::B), Operand8::Reg(Register8::E)))),
        0x44 => Some(Entry::Op(Instr::Load8(Dest8::Reg(Register8::B), Operand8::Reg(Register8::H)))),
        0x45 => Some(Entry::Op(Instr::Load8(Dest8::Reg(Register8::B), Operand8::Reg(Register8::L)))),
        0x47 => Some(Entry::Op(Instr::Load8(Dest8::Reg(Register8::B), Operand8::Reg(Register8::A)))),
        0x48 => Some(Entry::Op(Instr::Load8(Dest8::Reg(Register8::C), Operand8::Reg(Register8::B)))),
        0x49 => Some(Entry::Op(Instr::Load8(Dest8::Reg(Register8::C), Operand8::Reg(Register8::C)))),
        0x4a => Some(Entry::Op(Instr::Load8(Dest8::Reg(Register8::C), Operand8::Reg(Register8::D)))),
        0x4b => Some(Entry::Op(Instr::Load8(Dest8::Reg(Register8::C), Operand8::Reg(Register8::E)))),
        0x4c => Some(Entry::Op(Instr::Load8(Dest8::Reg(Register8::C), Operand8::Reg(Register8::H)))),
        0x4d => Some(Entry::Op(Instr::Load8(Dest8::Reg(Register8::C), Operand8::Reg(Register8::L)))),
        0x4f => Some(Entry::Op(Instr::Load8(Dest8::Reg(Register8::C), Operand8::Reg(Register8::A)))),
        0x50 => Some(Entry::Op(Instr::Load8(Dest8::Reg(Register8::D), Operand8::Reg(Register8::B)))),
        0x51 => Some(Entry::Op(Instr::Load8(Dest8::Reg(Register8::D), Operand8::Reg(Register8::C)))),
        0x52 => Some(Entry::Op(Instr::Load8(Dest8::Reg(Register8::D), Operand8::Reg(Register8::D)))),
        0x53 => Some(Entry::Op(Instr::Load8(Dest8::Reg(Register8::D), Operand8::Reg(Register8::E)))),
        0x54 => Some(Entry::Op(Instr::Load8(Dest8::Reg(Register8::D), Operand8::Reg(Register8::H)))),
        0x55 => Some(Entry::Op(Instr::Load8(Dest8::Reg(Register8::D), Operand8::Reg(Register8::L)))),
        0x57 => Some(Entry::Op(Instr::Load8(Dest8::Reg(Register8::D), Operand8::Reg(Register8::A)))),
        0x58 => Some(Entry::Op(Instr::Load8(Dest8::Reg(Register8::E), Operand8::Reg(Register8::B)))),
        0x59 => Some(Entry::Op(Instr::Load8(Dest8::Reg(Register8::E), Operand8::Reg(Register8::C)))),
        0x5a => Some(Entry::Op(Instr::Load8(Dest8::Reg(Register8::E), Operand8::Reg(Register8::D)))),
        0x5b => Some(Entry::Op(Instr::Load8(Dest8::Reg(Register8::E), Operand8::Reg(Register8::E)))),
        0x5e => Some(Entry::Op(Instr::Load8(Dest8::Reg(Register8::C), Operand8::Reg(Register8::H)))),
        0x5d => Some(Entry::Op(Instr::Load8(Dest8::Reg(Register8::E), Operand8::Reg(Register8::L)))),
        0x5f => Some(Entry::Op(Instr::Load8(Dest8::Reg(Register8::E), Operand8::Reg(Register8::A)))),
        0x60 => Some(Entry::Op(Instr::Load8(Dest8::Reg(Register8::H), Operand8::Reg(Register8::B)))),
        0x61 => Some(Entry::Op(Instr::Load8(Dest8::Reg(Register8::H), Operand8::Reg(Register8::C)))),
        0x62 => Some(Entry::Op(Instr::Load8(Dest8::Reg(Register8::H), Operand8::Reg(Register8::D)))),
        0x63 => Some(Entry::Op(Instr::Load8(Dest8::Reg(Register8::H), Operand8::Reg(Register8::E)))),
        0x64 => Some(Entry::Op(Instr::Load8(Dest8::Reg(Register8::H), Operand8::Reg(Register8::H)))),
        0x65 => Some(Entry::Op(Instr::Load8(Dest8::Reg(Register8::H), Operand8::Reg(Register8::L)))),
        0x67 => Some(Entry::Op(Instr::Load8(Dest8::Reg(Register8::H), Operand8::Reg(Register8::A)))),
        0x68 => Some(Entry::Op(Instr::Load8(Dest8::Reg(Register8::L), Operand8::Reg(Register8::B)))),
        0x69 => Some(Entry::Op(Instr::Load8(Dest8::Reg(Register8::L), Operand8::Reg(Register8::C)))),
        0x6a => Some(Entry::Op(Instr::Load8(Dest8::Reg(Register8::L), Operand8::Reg(Register8::D)))),
        0x6b => Some(Entry::Op(Instr::Load8(Dest8::Reg(Register8::L), Operand8::Reg(Register8::E)))),
        0x6e => Some(Entry::Op(Instr::Load8(Dest8::Reg(Register8::L), Operand8::Reg(Register8::H)))),
        0x6d => Some(Entry::Op(Instr::Load8(Dest8::Reg(Register8::L), Operand8::Reg(Register8::L)))),
        0x6f => Some(Entry::Op(Instr::Load8(Dest8::Reg(Register8::L), Operand8::Reg(Register8::A)))),
        0x78 => Some(Entry::Op(Instr::Load8(Dest8::Reg(Register8::A), Operand8::Reg(Register8::B)))),
        0x79 => Some(Entry::Op(Instr::Load8(Dest8::Reg(Register8::A), Operand8::Reg(Register8::C)))),
        0x7a => Some(Entry::Op(Instr::Load8(Dest8::Reg(Register8::A), Operand8::Reg(Register8::D)))),
        0x7b => Some(Entry::Op(Instr::Load8(Dest8::Reg(Register8::A), Operand8::Reg(Register8::E)))),
        0x7e => Some(Entry::Op(Instr::Load8(Dest8::Reg(Register8::A), Operand8::Reg(Register8::H)))),
        0x7d => Some(Entry::Op(Instr::Load8(Dest8::Reg(Register8::A), Operand8::Reg(Register8::L)))),
        0x7f => Some(Entry::Op(Instr::Load8(Dest8::Reg(Register8::A), Operand8::Reg(Register8::A)))),
        0x01 => Some(Entry::Op(Instr::Load16(Register16::BC, Operand16::Immediate))),
        0x11 => Some(Entry::Op(Instr::Load16(Register16::DE, Operand16::Immediate))),
        0x21 => Some(Entry::Op(Instr::Load16(Register16::HL, Operand16::Immediate))),
        0x31 => Some(Entry::Op(Instr::Load16(Register16::SP, Operand16::Immediate))),
        0xc5 => Some(Entry::Op(Instr::Push16(Register16::BC))),
        0xd5 => Some(Entry::Op(Instr::Push16(Register16::DE))),
        0xe5 => Some(Entry::Op(Instr::Push16(Register16::HL))),
        0xf5 => Some(Entry::Op(Instr::Push16(Register16::AF))),
        0xc1 => Some(Entry::Op(Instr::Pop16(Register16::BC))),
        0xd1 => Some(Entry::Op(Instr::Pop16(Register16::DE))),
        0xe1 => Some(Entry::Op(Instr::Pop16(Register16::HL))),
        0xf1 => Some(Entry::Op(Instr::Pop16(Register16::AF))),
        0xb8 => Some(Entry::Op(Instr::Cp(Operand8::Reg(Register8::B)))),
        0xb9 => Some(Entry::Op(Instr::Cp(Operand8::Reg(Register8::C)))),
        0xba => Some(Entry::Op(Instr::Cp(Operand8::Reg(Register8::D)))),
        0xbb => Some(Entry::Op(Instr::Cp(Operand8::Reg(Register8::E)))),
        0xbc => Some(Entry::Op(Instr::Cp(Operand8::Reg(Register8::H)))),
        0xbd => Some(Entry::Op(Instr::Cp(Operand8::Reg(Register8::L)))),
        0xbf => Some(Entry::Op(Instr::Cp(Operand8::Reg(Register8::A)))),
        0xfe => Some(Entry::Op(Instr::Cp(Operand8::Immediate))),
        0xf3 => Some(Entry::Op(Instr::DisableInterrupts)),
        0x03 => Some(Entry::Op(Instr::Inc16(Register16::BC))),
        0x13 => Some(Entry::Op(Instr::Inc16(Register16::DE))),
        0x23 => Some(Entry::Op(Instr::Inc16(Register16::HL))),
        0x33 => Some(Entry::Op(Instr::Inc16(Register16::SP))),
        0xc3 => Some(Entry::Op(Instr::Jump(Address::Direct, Cond::Always))),
        0xc2 => Some(Entry::Op(Instr::Jump(Address::Direct, Cond::NonZero))),
        0xca => Some(Entry::Op(Instr::Jump(Address::Direct, Cond::Zero))),
        0x18 => Some(Entry::Op(Instr::Jr(Cond::Always))),
        0x20 => Some(Entry::Op(Instr::Jr(Cond::NonZero))),
        0x28 => Some(Entry::Op(Instr::Jr(Cond::Zero))),
        0x30 => Some(Entry::Op(Instr::Jr(Cond::NonCarry))),
        0x38 => Some(Entry::Op(Instr::Jr(Cond::Carry))),
        0xcc => Some(Entry::Op(Instr::Call(Address::Direct, Cond::Zero))),
        0xc4 => Some(Entry::Op(Instr::Call(Address::Direct, Cond::NonZero))),
        0xcd => Some(Entry::Op(Instr::Call(Address::Direct, Cond::Always))),
        0xc9 => Some(Entry::Op(Instr::Ret)),
        0xd3 => Some(Entry::Op(Instr::Out(PortAddress::Immediate, Operand8::Reg(Register8::A)))),
        0xed => Some(Entry::Prefix),
        _ => None,
    }
}

/// The extended opcode table, reached through the prefix byte: an
/// independently defined mapping from each second-byte value to an
/// operation invocation, or nothing.
pub open spec fn lookup_ed_spec(opcode: u8) -> Option<Instr> {
    match opcode {
        0xa0 => Some(Instr::Ldi),
        0xb0 => Some(Instr::Ldir),
        0x46 => Some(Instr::SetInterruptMode(0)),
        0x56 => Some(Instr::SetInterruptMode(1)),
        0x5e => Some(Instr::SetInterruptMode(2)),
        _ => None,
    }
}

/// Looks an extended opcode up in the extended table.
pub fn lookup_ed(opcode: u8) -> (r: Option<Instr>)
    ensures
        r == lookup_ed_spec(opcode),
{
    match opcode {
        0xa0 => Some(Instr::Ldi),
        0xb0 => Some(Instr::Ldir),
        0x46 => Some(Instr::SetInterruptMode(0)),
        0x56 => Some(Instr::SetInterruptMode(1)),
        0x5e => Some(Instr::SetInterruptMode(2)),
        _ => None,
    }
}

/// What one decode-execute step does: fetch one opcode byte at PC, look it
/// up, and perform the entry — or transfer to the extended table on the
/// prefix byte. An absent opcode is a decode error carrying the opcode
/// value, the table, and the address the byte was fetched from.
#[verifier::opaque]
pub open spec fn visit_spec(s: State, b: BusV) -> (Result<(), Error>, State, BusV) {
    let (r0, s1) = next8_spec(s, b);
    match r0 {
        Ok(op) => match lookup_spec(op) {
            Some(Entry::Op(i)) => execute_spec(s1, b, i),
            Some(Entry::Prefix) => visit_ed_spec(s1, b),
            None => (
                Err(Error::Decode { opcode: op, table: OpcodeTable::Primary, pc: s.pc }),
                s1,
                b,
            ),
        },
        Err(e) => (Err(e), s1, b),
    }
}

/// What the extended-table step does: fetch the second opcode byte, look
/// it up in the extended table, and perform the entry.
pub open spec fn visit_ed_spec(s: State, b: BusV) -> (Result<(), Error>, State, BusV) {
    let (r0, s1) = next8_spec(s, b);
    match r0 {
        Ok(op) => match lookup_ed_spec(op) {
            Some(i) => execute_spec(s1, b, i),
            None => (
                Err(Error::Decode { opcode: op, table: OpcodeTable::Extended, pc: s.pc }),
                s1,
                b,
            ),
        },
        Err(e) => (Err(e), s1, b),
    }
}

/// Fetches, decodes and performs one instruction through the primary
/// table.
pub fn visit(state: &mut State, bus: &mut Bus) -> (r: Result<(), Error>)
    requires
        old(bus)@.wf(),
    ensures
        final(bus)@.wf(),
        (r, *final(state), final(bus)@) == visit_spec(*old(state), old(bus)@),
{
    proof {
        reveal(visit_spec);
    }
    let pc0 = state.pc;
    let opcode = match state.next8(bus) {
        Ok(v) => v,
        Err(e) => {
            return Err(e);
        },
    };
    match lookup(opcode) {
        Some(Entry::Op(i)) => execute(state, bus, i),
        Some(Entry::Prefix) => visit_ed(state, bus),
        None => Err(Error::Decode { opcode, table: OpcodeTable::Primary, pc: pc0 }),
    }
}

/// Fetches, decodes and performs one instruction of the extended table,
/// after the prefix byte has been consumed.
pub fn visit_ed(state: &mut State, bus: &mut Bus) -> (r: Result<(), Error>)
    requires
        old(bus)@.wf(),
    ensures
        final(bus)@.wf(),
        (r, *final(state), final(bus)@) == visit_ed_spec(*old(state), old(bus)@),
{
    let pc0 = state.pc;
    let opcode = match state.next8(bus) {
        Ok(v) => v,
        Err(e) => {
            return Err(e);
        },
    };
    match lookup_ed(opcode) {
        Some(i) => execute(state, bus, i),
        None => Err(Error::Decode { opcode, table: OpcodeTable::Extended, pc: pc0 }),
    }
}


/// An opcode byte absent from the primary table is a decode error, and a
/// deterministic one: from a given state and bus the step yields exactly
/// this error — the opcode value, the primary table, and the address the
/// byte was fetched from — with PC advanced past the byte and the bus
/// untouched, identically on every run.
pub proof fn lemma_decode_error_primary(s: State, b: BusV, op: u8)
    requires
        b.read_spec(s.pc) == Ok::<u8, Error>(op),
        lookup_spec(op) is None,
    ensures
        visit_spec(s, b) == (
            Err::<(), Error>(Error::Decode { opcode: op, table: OpcodeTable::Primary, pc: s.pc }),
            State { pc: s.pc.wrapping_add(1), ..s },
            b,
        ),
{
    reveal(visit_spec);
}

/// A second byte absent from the extended table is a decode error naming
/// the extended table and the address of that second byte, equally
/// deterministic: PC has advanced past both bytes and the bus is
/// untouched.
pub proof fn lemma_decode_error_extended(s: State, b: BusV, op: u8)
    requires
        b.read_spec(s.pc) == Ok::<u8, Error>(0xed),
        b.read_spec(s.pc.wrapping_add(1)) == Ok::<u8, Error>(op),
        lookup_ed_spec(op) is None,
    ensures
        visit_spec(s, b) == (
            Err::<(), Error>(
                Error::Decode {
                    opcode: op,
                    table: OpcodeTable::Extended,
                    pc: s.pc.wrapping_add(1),
                },
            ),
            State { pc: s.pc.wrapping_add(2), ..s },
            b,
        ),
{
    reveal(visit_spec);
    let s1 = State { pc: s.pc.wrapping_add(1), ..s };
    assert(visit_spec(s, b) == visit_ed_spec(s1, b));
    assert(State { pc: s1.pc.wrapping_add(1), ..s1 } == State { pc: s.pc.wrapping_add(2), ..s });
}
} // verus!
