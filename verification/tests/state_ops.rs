//! Register file, flag register, PC-relative fetch, stack discipline, and
//! the bus/cartridge address map, exercised on concrete values.

use z80core::bus::Bus;
use z80core::cartridge::Cartridge;
use z80core::error::{Access, Error};
use z80core::flags::{Flag, Flags};
use z80core::operands::Register16;
use z80core::state::State;

fn bus_with_rom(rom: &[u8]) -> Bus {
    Bus::new(Cartridge::from_bytes(rom))
}

#[test]
fn flags_byte_round_trip_concrete() {
    let f = Flags::from_byte(0xA5);
    assert!(f.s);
    assert!(!f.z);
    assert!(f.b5);
    assert!(!f.h);
    assert!(!f.b3);
    assert!(f.p);
    assert!(!f.n);
    assert!(f.c);
    assert_eq!(f.to_byte(), 0xA5);
    assert_eq!(Flags::from_byte(Flags::new().to_byte()), Flags::new());
}

#[test]
fn flag_set_and_test() {
    let mut st = State::default();
    st.flag_set(Flag::Carry, true);
    st.flag_set(Flag::Zero, true);
    assert!(st.flag_test(Flag::Carry));
    assert!(st.flag_test(Flag::Zero));
    assert!(!st.flag_test(Flag::Sign));
    st.flag_set(Flag::Carry, false);
    assert!(!st.flag_test(Flag::Carry));
    assert!(st.f.z);
}

#[test]
fn state_power_on_is_all_zero() {
    let st = State::default();
    assert_eq!(st.a, 0);
    assert_eq!(st.f, Flags::new());
    assert_eq!(st.sp, 0);
    assert_eq!(st.pc, 0);
    assert!(!st.iff1);
    assert!(!st.iff2);
    assert_eq!(st.interrupt_mode, 0);
}

#[test]
fn pair_round_trip_every_name() {
    for (name, hi_check, lo_check) in [
        (Register16::BC, 0x12u8, 0x34u8),
        (Register16::DE, 0x12, 0x34),
        (Register16::HL, 0x12, 0x34),
    ] {
        let mut st = State::default();
        st.pair_write(name, 0x1234);
        assert_eq!(st.pair_read(name), 0x1234);
        match name {
            Register16::BC => assert_eq!((st.b, st.c), (hi_check, lo_check)),
            Register16::DE => assert_eq!((st.d, st.e), (hi_check, lo_check)),
            Register16::HL => assert_eq!((st.h, st.l), (hi_check, lo_check)),
            _ => {}
        }
    }
    let mut st = State::default();
    st.pair_write(Register16::SP, 0xBEEF);
    assert_eq!(st.pair_read(Register16::SP), 0xBEEF);
    assert_eq!(st.sp, 0xBEEF);
    // AF round trips bit-identically, the low byte through the flag file.
    let mut st = State::default();
    st.pair_write(Register16::AF, 0x12FF);
    assert_eq!(st.a, 0x12);
    assert!(st.f.s && st.f.z && st.f.b5 && st.f.h && st.f.b3 && st.f.p && st.f.n && st.f.c);
    assert_eq!(st.pair_read(Register16::AF), 0x12FF);
    st.pair_write(Register16::AF, 0x5601);
    assert_eq!(st.pair_read(Register16::AF), 0x5601);
}

#[test]
fn pair_accessors_match_pair_read() {
    let mut st = State::default();
    st.set_bc(0x0102);
    st.set_de(0x0304);
    st.set_hl(0x0506);
    assert_eq!(st.bc(), 0x0102);
    assert_eq!(st.de(), 0x0304);
    assert_eq!(st.hl(), 0x0506);
}

#[test]
fn next8_reads_at_pc_and_advances() {
    let bus = bus_with_rom(&[0x01, 0x02, 0x03]);
    let mut st = State::default();
    assert_eq!(st.next8(&bus), Ok(0x01));
    assert_eq!(st.pc, 1);
    assert_eq!(st.next16(&bus), Ok(0x0302));
    assert_eq!(st.pc, 3);
    assert_eq!(st.a, 0);
    assert_eq!(st.sp, 0);
}

#[test]
fn next8_unmapped_is_memory_error() {
    let bus = bus_with_rom(&[]);
    let mut st = State::default();
    st.pc = 0xE000;
    assert_eq!(
        st.next8(&bus),
        Err(Error::Memory { address: 0xE000, access: Access::Read })
    );
    assert_eq!(st.pc, 0xE001);
}

#[test]
fn push_pop_restores_sp_and_value() {
    let mut bus = bus_with_rom(&[]);
    let mut st = State::default();
    st.sp = 0xD000;
    assert_eq!(st.push16(&mut bus, 0xBEEF), Ok(()));
    assert_eq!(st.sp, 0xCFFE);
    // High byte first, at the higher pre-decrement address.
    assert_eq!(bus.read8(0xCFFF), Ok(0xBE));
    assert_eq!(bus.read8(0xCFFE), Ok(0xEF));
    assert_eq!(st.pop16(&mut bus), Ok(0xBEEF));
    assert_eq!(st.sp, 0xD000);
}

#[test]
fn push8_outside_ram_is_memory_error() {
    let mut bus = bus_with_rom(&[0x00]);
    let mut st = State::default();
    st.sp = 0x1000;
    assert_eq!(
        st.push8(&mut bus, 0x42),
        Err(Error::Memory { address: 0x0FFF, access: Access::Write })
    );
}

#[test]
fn sp_wraps_below_zero() {
    let mut bus = bus_with_rom(&[]);
    let mut st = State::default();
    st.sp = 0x0000;
    // SP wraps to 0xFFFF, which is unmapped: a memory error, not a trap.
    assert_eq!(
        st.push8(&mut bus, 0x42),
        Err(Error::Memory { address: 0xFFFF, access: Access::Write })
    );
    assert_eq!(st.sp, 0xFFFF);
}

#[test]
fn push16_stops_at_first_failed_byte() {
    let mut bus = bus_with_rom(&[]);
    let mut st = State::default();
    // The high byte lands at 0xC000; the low byte would land at 0xBFFF,
    // inside the read-only window, and fails after SP already moved.
    st.sp = 0xC001;
    assert_eq!(
        st.push16(&mut bus, 0xAABB),
        Err(Error::Memory { address: 0xBFFF, access: Access::Write })
    );
    assert_eq!(st.sp, 0xBFFF);
    assert_eq!(bus.read8(0xC000), Ok(0xAA));
}

#[test]
fn cartridge_reads_are_bounds_checked_by_bus() {
    let cart = Cartridge::from_bytes(&[0xAA, 0xBB]);
    assert_eq!(cart.len(), 2);
    assert_eq!(cart.read_u8(1), 0xBB);
    let bus = Bus::new(cart);
    assert_eq!(bus.read8(0x0000), Ok(0xAA));
    assert_eq!(bus.read8(0x0001), Ok(0xBB));
    // Inside the ROM window but beyond the image.
    assert_eq!(
        bus.read8(0x0005),
        Err(Error::Memory { address: 0x0005, access: Access::Read })
    );
}

#[test]
fn bus_address_map() {
    let mut bus = bus_with_rom(&[0x11]);
    // RAM window reads back what was written.
    assert_eq!(bus.write8(0xC000, 0x55), Ok(()));
    assert_eq!(bus.read8(0xC000), Ok(0x55));
    assert_eq!(bus.write8(0xDFFF, 0x66), Ok(()));
    assert_eq!(bus.read8(0xDFFF), Ok(0x66));
    // RAM powers on zero-filled.
    assert_eq!(bus.read8(0xC123), Ok(0x00));
    // The ROM window is not writable.
    assert_eq!(
        bus.write8(0x0000, 0x01),
        Err(Error::Memory { address: 0x0000, access: Access::Write })
    );
    // Beyond both windows: unmapped.
    assert_eq!(
        bus.read8(0xE000),
        Err(Error::Memory { address: 0xE000, access: Access::Read })
    );
    assert_eq!(
        bus.write8(0xFFFF, 0x01),
        Err(Error::Memory { address: 0xFFFF, access: Access::Write })
    );
}

#[test]
fn console_port_collects_bytes() {
    let mut bus = bus_with_rom(&[]);
    bus.out8(0xFD, b'H');
    bus.out8(0xFD, b'i');
    assert_eq!(bus.console().as_slice(), b"Hi");
    // Every other port has no machine-visible effect.
    bus.out8(0x10, 0x99);
    assert_eq!(bus.console().as_slice(), b"Hi");
}
