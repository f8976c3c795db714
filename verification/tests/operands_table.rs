//! The addressing layer's capability traits and the opcode tables as
//! data, exercised directly.

use z80core::bus::Bus;
use z80core::cartridge::Cartridge;
use z80core::error::{Access, Error};
use z80core::io::{Dst16, Dst8, Src16, Src8};
use z80core::operands::{
    Address, Condition, Immediate16, Immediate8, Register16, Register8, CARRY, NON_CARRY,
    NON_ZERO, ZERO,
};
use z80core::operations::{execute, lookup, lookup_ed, Cond, Dest8, Entry, Instr, Operand8};
use z80core::state::State;

fn bus_with_rom(rom: &[u8]) -> Bus {
    Bus::new(Cartridge::from_bytes(rom))
}

#[test]
fn register_descriptors_read_and_write() {
    let mut bus = bus_with_rom(&[]);
    let mut st = State::default();
    st.h = 0x31;
    assert_eq!(Register8::H.src8(&mut st, &mut bus), Ok(0x31));
    assert_eq!(Register8::E.dst8(&mut st, &mut bus, 0x99), Ok(()));
    assert_eq!(st.e, 0x99);
    st.sp = 0x8000;
    assert_eq!(Register16::SP.src16(&mut st, &mut bus), Ok(0x8000));
    assert_eq!(Register16::HL.dst16(&mut st, &mut bus, 0x1234), Ok(()));
    assert_eq!(st.hl(), 0x1234);
}

#[test]
fn immediate_descriptors_consume_pc_bytes() {
    let mut bus = bus_with_rom(&[0x0A, 0x0B, 0x0C]);
    let mut st = State::default();
    assert_eq!(Immediate8.src8(&mut st, &mut bus), Ok(0x0A));
    assert_eq!(st.pc, 1);
    assert_eq!(Immediate16.src16(&mut st, &mut bus), Ok(0x0C0B));
    assert_eq!(st.pc, 3);
}

#[test]
fn address_descriptor_reads_and_writes_memory() {
    let mut bus = bus_with_rom(&[0x00, 0xC0]);
    let mut st = State::default();
    // Direct: the two immediate bytes name 0xC000; one write lands there.
    assert_eq!(Address::Direct.dst8(&mut st, &mut bus, 0x5A), Ok(()));
    assert_eq!(st.pc, 2);
    assert_eq!(bus.read8(0xC000), Ok(0x5A));
    // Register-indirect: reads back through HL without touching PC.
    st.set_hl(0xC000);
    assert_eq!(Address::HL.src8(&mut st, &mut bus), Ok(0x5A));
    assert_eq!(st.pc, 2);
    // A write through an address outside RAM is a memory error.
    st.set_de(0x4000);
    assert_eq!(
        Address::DE.dst8(&mut st, &mut bus, 0x01),
        Err(Error::Memory { address: 0x4000, access: Access::Write })
    );
}

#[test]
fn condition_predicates_consult_one_flag() {
    let mut st = State::default();
    assert!(().check(&st));
    assert!(!CARRY.check(&st));
    assert!(NON_CARRY.check(&st));
    assert!(!ZERO.check(&st));
    assert!(NON_ZERO.check(&st));
    st.f.c = true;
    st.f.z = true;
    assert!(CARRY.check(&st));
    assert!(!NON_CARRY.check(&st));
    assert!(ZERO.check(&st));
    assert!(!NON_ZERO.check(&st));
}

#[test]
fn primary_table_is_data() {
    assert_eq!(
        lookup(0x3E),
        Some(Entry::Op(Instr::Load8(Dest8::Reg(Register8::A), Operand8::Immediate)))
    );
    assert_eq!(lookup(0x47), Some(Entry::Op(Instr::Load8(Dest8::Reg(Register8::B), Operand8::Reg(Register8::A)))));
    assert_eq!(lookup(0xC9), Some(Entry::Op(Instr::Ret)));
    assert_eq!(lookup(0xED), Some(Entry::Prefix));
    assert_eq!(lookup(0xC2), Some(Entry::Op(Instr::Jump(Address::Direct, Cond::NonZero))));
    // Coverage is intentionally partial: HALT has no entry yet.
    assert_eq!(lookup(0x76), None);
    assert_eq!(lookup(0x00), None);
}

#[test]
fn extended_table_is_data() {
    assert_eq!(lookup_ed(0xA0), Some(Instr::Ldi));
    assert_eq!(lookup_ed(0xB0), Some(Instr::Ldir));
    assert_eq!(lookup_ed(0x56), Some(Instr::SetInterruptMode(1)));
    assert_eq!(lookup_ed(0x00), None);
}

#[test]
fn execute_performs_a_table_entry() {
    let mut bus = bus_with_rom(&[]);
    let mut st = State::default();
    st.a = 0x66;
    assert_eq!(
        execute(&mut st, &mut bus, Instr::Load8(Dest8::Reg(Register8::D), Operand8::Reg(Register8::A))),
        Ok(())
    );
    assert_eq!(st.d, 0x66);
    assert_eq!(execute(&mut st, &mut bus, Instr::Inc16(Register16::BC)), Ok(()));
    assert_eq!(st.bc(), 0x0001);
}

#[test]
fn ldir_with_bc_zero_counts_down_through_wrap() {
    // The repeated copy always performs one step first; a starting BC of
    // zero therefore counts down through 0xFFFF and keeps repeating, as
    // on the hardware.
    let mut bus = bus_with_rom(&[]);
    let mut st = State::default();
    st.pc = 0x0002;
    st.set_hl(0xC000);
    st.set_de(0xC100);
    st.set_bc(0x0000);
    assert_eq!(z80core::executor::ldir(&mut st, &mut bus), Ok(()));
    assert_eq!(st.bc(), 0xFFFF);
    assert_eq!(st.pc, 0x0000);
}

#[test]
fn pair_write_is_idempotent_on_read_back() {
    for name in [
        Register16::AF,
        Register16::BC,
        Register16::DE,
        Register16::HL,
        Register16::SP,
    ] {
        let mut st = State::default();
        st.pair_write(name, 0xA55A);
        let snapshot = st;
        let read = st.pair_read(name);
        st.pair_write(name, read);
        assert_eq!(st, snapshot);
        assert_eq!(read, 0xA55A);
    }
}
