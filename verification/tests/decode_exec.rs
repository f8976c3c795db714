//! The operation semantics and the two-level decoder, exercised opcode by
//! opcode through the CPU's step, plus the machine's run loop.

use z80core::bus::Bus;
use z80core::cartridge::Cartridge;
use z80core::cpu::Cpu;
use z80core::error::{Access, Error, OpcodeTable};
use z80core::executor;
use z80core::operands::{Address, PortAddress, Register16, Register8};
use z80core::state::State;
use z80core::vm::VM;

fn bus_with_rom(rom: &[u8]) -> Bus {
    Bus::new(Cartridge::from_bytes(rom))
}

fn machine(rom: &[u8]) -> (Cpu, Bus) {
    (Cpu::new(), bus_with_rom(rom))
}

#[test]
fn xor_a_always_clears_accumulator() {
    for a in [0x00u8, 0x01, 0x5A, 0x80, 0xFF] {
        let mut bus = bus_with_rom(&[]);
        let mut st = State::default();
        st.a = a;
        st.f.c = true;
        assert_eq!(executor::xor(&mut st, &mut bus, Register8::A), Ok(()));
        assert_eq!(st.a, 0);
        assert!(st.f.z);
        assert!(!st.f.s);
        assert!(!st.f.h);
        assert!(!st.f.n);
        assert!(!st.f.c);
        assert!(st.f.p);
    }
}

#[test]
fn xor_exact_value_and_parity() {
    let mut bus = bus_with_rom(&[]);
    let mut st = State::default();
    st.a = 0x0F;
    st.b = 0x3C;
    assert_eq!(executor::xor(&mut st, &mut bus, Register8::B), Ok(()));
    // 0x0F ^ 0x3C == 0x33: four set bits, an even count.
    assert_eq!(st.a, 0x33);
    assert!(st.f.p);
    assert!(!st.f.z);
    assert!(!st.f.s);

    let mut st = State::default();
    st.a = 0x01;
    st.c = 0x02;
    assert_eq!(executor::xor(&mut st, &mut bus, Register8::C), Ok(()));
    // 0x03: two set bits, even parity; still not zero, not negative.
    assert_eq!(st.a, 0x03);
    assert!(st.f.p);

    let mut st = State::default();
    st.a = 0x00;
    st.d = 0x01;
    assert_eq!(executor::xor(&mut st, &mut bus, Register8::D), Ok(()));
    // One set bit: odd count, parity clear.
    assert_eq!(st.a, 0x01);
    assert!(!st.f.p);
}

#[test]
fn or_exact_value_and_flags() {
    let mut bus = bus_with_rom(&[]);
    let mut st = State::default();
    st.a = 0x80;
    st.e = 0x01;
    assert_eq!(executor::or(&mut st, &mut bus, Register8::E), Ok(()));
    // 0x81: sign from bit 7, two set bits so parity even.
    assert_eq!(st.a, 0x81);
    assert!(st.f.s);
    assert!(st.f.p);
    assert!(!st.f.z);
    assert!(!st.f.h);
    assert!(!st.f.n);
    assert!(!st.f.c);
}

#[test]
fn cp_equal_operands_sets_zero_clears_carry() {
    for v in [0x00u8, 0x42, 0x80, 0xFF] {
        let mut bus = bus_with_rom(&[]);
        let mut st = State::default();
        st.a = v;
        st.b = v;
        assert_eq!(executor::cp(&mut st, &mut bus, Register8::B), Ok(()));
        assert!(st.f.z);
        assert!(!st.f.c);
        assert!(st.f.n);
        // The accumulator itself is untouched.
        assert_eq!(st.a, v);
    }
}

#[test]
fn cp_borrow_and_overflow_flags() {
    let mut bus = bus_with_rom(&[]);
    let mut st = State::default();
    st.a = 0x01;
    st.b = 0x02;
    assert_eq!(executor::cp(&mut st, &mut bus, Register8::B), Ok(()));
    // 1 - 2 borrows: carry set, result 0xFF is negative, low nibble borrows.
    assert!(st.f.c);
    assert!(st.f.s);
    assert!(st.f.h);
    assert!(!st.f.z);
    assert!(!st.f.p);

    let mut st = State::default();
    st.a = 0x80;
    st.b = 0x01;
    assert_eq!(executor::cp(&mut st, &mut bus, Register8::B), Ok(()));
    // -128 - 1 overflows signed arithmetic: result 0x7F flips the sign.
    assert!(st.f.p);
    assert!(!st.f.c);
    assert!(!st.f.s);
}

#[test]
fn subc_impl_with_carry_in() {
    let mut bus = bus_with_rom(&[]);
    let _ = &mut bus;
    let mut st = State::default();
    st.a = 0x05;
    let r = executor::subc_impl(&mut st, 0x03, true);
    assert_eq!(r, 0x01);
    assert!(!st.f.z);
    assert!(!st.f.c);
    assert!(!st.f.h);
    assert!(st.f.n);
    // The result is computed, not stored.
    assert_eq!(st.a, 0x05);
}

#[test]
fn add16_half_carry_from_bit_11() {
    let mut st = State::default();
    st.set_hl(0x0FFF);
    st.set_bc(0x0001);
    st.f.s = true;
    st.f.z = true;
    st.f.p = true;
    executor::add16(&mut st, Register16::HL, Register16::BC);
    assert_eq!(st.hl(), 0x1000);
    assert!(st.f.h);
    assert!(!st.f.c);
    assert!(!st.f.n);
    // Sign, Zero and Parity are provably untouched by this operation.
    assert!(st.f.s);
    assert!(st.f.z);
    assert!(st.f.p);
}

#[test]
fn add16_carry_from_bit_15() {
    let mut st = State::default();
    st.set_hl(0xFFFF);
    st.set_bc(0x0001);
    executor::add16(&mut st, Register16::HL, Register16::BC);
    assert_eq!(st.hl(), 0x0000);
    assert!(st.f.c);
    assert!(st.f.h);
    assert!(!st.f.s);
    assert!(!st.f.z);
    assert!(!st.f.p);
}

#[test]
fn inc16_dec16_wrap() {
    let mut st = State::default();
    st.sp = 0xFFFF;
    executor::inc16(&mut st, Register16::SP);
    assert_eq!(st.sp, 0x0000);
    executor::dec16(&mut st, Register16::BC);
    assert_eq!(st.bc(), 0xFFFF);
    // No flag effect.
    assert_eq!(st.f, z80core::flags::Flags::new());
}

#[test]
fn ex_de_hl_swaps_pairs() {
    let mut st = State::default();
    st.set_de(0x1122);
    st.set_hl(0x3344);
    executor::ex_de_hl(&mut st);
    assert_eq!(st.de(), 0x3344);
    assert_eq!(st.hl(), 0x1122);
}

#[test]
fn ldi_copies_one_byte() {
    let mut bus = bus_with_rom(&[]);
    let mut st = State::default();
    bus.write8(0xC000, 0x77).unwrap();
    st.set_hl(0xC000);
    st.set_de(0xC100);
    st.set_bc(0x0002);
    assert_eq!(executor::ldi(&mut st, &mut bus), Ok(()));
    assert_eq!(bus.read8(0xC100), Ok(0x77));
    assert_eq!(st.hl(), 0xC001);
    assert_eq!(st.de(), 0xC101);
    assert_eq!(st.bc(), 0x0001);
}

#[test]
fn ldir_three_bytes_is_three_steps() {
    // ED B0 is LDIR; each repetition is one full decode-execute step.
    let (mut cpu, mut bus) = machine(&[0xED, 0xB0]);
    for (i, v) in [0x0Au8, 0x0B, 0x0C].iter().enumerate() {
        bus.write8(0xC000 + i as u16, *v).unwrap();
    }
    {
        let st = cpu.state_mut();
        st.set_hl(0xC000);
        st.set_de(0xC100);
        st.set_bc(0x0003);
    }
    // Step 1: one copy, BC = 2, PC rewound to re-fetch the same opcode.
    assert_eq!(cpu.step(&mut bus), Ok(()));
    assert_eq!(cpu.state().bc(), 0x0002);
    assert_eq!(cpu.state().pc, 0x0000);
    // Step 2: one more copy, still rewound.
    assert_eq!(cpu.step(&mut bus), Ok(()));
    assert_eq!(cpu.state().bc(), 0x0001);
    assert_eq!(cpu.state().pc, 0x0000);
    // Step 3: the last copy; BC hits zero and PC moves past the opcode.
    assert_eq!(cpu.step(&mut bus), Ok(()));
    assert_eq!(cpu.state().bc(), 0x0000);
    assert_eq!(cpu.state().pc, 0x0002);
    assert_eq!(cpu.state().de(), 0xC103);
    assert_eq!(cpu.state().hl(), 0xC003);
    for (i, v) in [0x0Au8, 0x0B, 0x0C].iter().enumerate() {
        assert_eq!(bus.read8(0xC100 + i as u16), Ok(*v));
    }
}

#[test]
fn jump_false_condition_consumes_target() {
    // C2 is JP NZ,nn: with Zero set the condition is false.
    let (mut cpu, mut bus) = machine(&[0xC2, 0x34, 0x12]);
    cpu.state_mut().f.z = true;
    assert_eq!(cpu.step(&mut bus), Ok(()));
    assert_eq!(cpu.state().pc, 0x0003);
}

#[test]
fn jump_true_condition_takes_target() {
    let (mut cpu, mut bus) = machine(&[0xC2, 0x34, 0x12]);
    assert_eq!(cpu.step(&mut bus), Ok(()));
    assert_eq!(cpu.state().pc, 0x1234);
}

#[test]
fn jr_signed_displacement() {
    // 18 FE is JR -2: lands back on the instruction's own first byte.
    let (mut cpu, mut bus) = machine(&[0x18, 0xFE]);
    assert_eq!(cpu.step(&mut bus), Ok(()));
    assert_eq!(cpu.state().pc, 0x0000);
    // 20 05 is JR NZ,+5 with Zero set: byte consumed, no jump.
    let (mut cpu, mut bus) = machine(&[0x20, 0x05]);
    cpu.state_mut().f.z = true;
    assert_eq!(cpu.step(&mut bus), Ok(()));
    assert_eq!(cpu.state().pc, 0x0002);
}

#[test]
fn call_pushes_return_address_and_ret_pops_it() {
    let mut rom = vec![0xCD, 0x10, 0x00];
    rom.resize(0x10, 0x00);
    rom.push(0xC9);
    let (mut cpu, mut bus) = machine(&rom);
    cpu.state_mut().sp = 0xD000;
    assert_eq!(cpu.step(&mut bus), Ok(()));
    assert_eq!(cpu.state().pc, 0x0010);
    assert_eq!(cpu.state().sp, 0xCFFE);
    // The word at the pre-call SP minus two is the return address 0x0003.
    assert_eq!(bus.read8(0xCFFE), Ok(0x03));
    assert_eq!(bus.read8(0xCFFF), Ok(0x00));
    assert_eq!(cpu.step(&mut bus), Ok(()));
    assert_eq!(cpu.state().pc, 0x0003);
    assert_eq!(cpu.state().sp, 0xD000);
}

#[test]
fn conditional_call_false_skips() {
    // CC is CALL Z,nn: with Zero clear nothing is pushed.
    let (mut cpu, mut bus) = machine(&[0xCC, 0x10, 0x00]);
    cpu.state_mut().sp = 0xD000;
    assert_eq!(cpu.step(&mut bus), Ok(()));
    assert_eq!(cpu.state().pc, 0x0003);
    assert_eq!(cpu.state().sp, 0xD000);
}

#[test]
fn load8_immediate_and_register_variants() {
    let (mut cpu, mut bus) = machine(&[0x3E, 0x42, 0x47]);
    assert_eq!(cpu.step(&mut bus), Ok(()));
    assert_eq!(cpu.state().a, 0x42);
    assert_eq!(cpu.state().pc, 2);
    // 47 is LD B,A.
    assert_eq!(cpu.step(&mut bus), Ok(()));
    assert_eq!(cpu.state().b, 0x42);
    // No flag effect from loads.
    assert_eq!(cpu.state().f, z80core::flags::Flags::new());
}

#[test]
fn load8_memory_indirect() {
    // 0A is LD A,(BC).
    let (mut cpu, mut bus) = machine(&[0x0A]);
    bus.write8(0xC050, 0x99).unwrap();
    cpu.state_mut().set_bc(0xC050);
    assert_eq!(cpu.step(&mut bus), Ok(()));
    assert_eq!(cpu.state().a, 0x99);
}

#[test]
fn load16_immediate() {
    let (mut cpu, mut bus) = machine(&[0x01, 0x34, 0x12, 0x31, 0x00, 0xD0]);
    assert_eq!(cpu.step(&mut bus), Ok(()));
    assert_eq!(cpu.state().bc(), 0x1234);
    assert_eq!(cpu.step(&mut bus), Ok(()));
    assert_eq!(cpu.state().sp, 0xD000);
}

#[test]
fn push_pop_opcodes_move_a_pair() {
    // C5 is PUSH BC, D1 is POP DE.
    let (mut cpu, mut bus) = machine(&[0xC5, 0xD1]);
    {
        let st = cpu.state_mut();
        st.sp = 0xD000;
        st.set_bc(0xABCD);
    }
    assert_eq!(cpu.step(&mut bus), Ok(()));
    assert_eq!(cpu.step(&mut bus), Ok(()));
    assert_eq!(cpu.state().de(), 0xABCD);
    assert_eq!(cpu.state().sp, 0xD000);
}

#[test]
fn pop_af_restores_flags_bit_identically() {
    // F5 is PUSH AF, F1 is POP AF: the flag byte survives the stack
    // exactly, the two unnamed bits included.
    let (mut cpu, mut bus) = machine(&[0xF5, 0xF1]);
    {
        let st = cpu.state_mut();
        st.sp = 0xD000;
        st.a = 0x7E;
        st.f = z80core::flags::Flags::from_byte(0xFF);
    }
    assert_eq!(cpu.step(&mut bus), Ok(()));
    cpu.state_mut().a = 0;
    cpu.state_mut().f = z80core::flags::Flags::new();
    assert_eq!(cpu.step(&mut bus), Ok(()));
    assert_eq!(cpu.state().a, 0x7E);
    assert_eq!(cpu.state().f.to_byte(), 0xFF);
    assert_eq!(cpu.state().sp, 0xD000);
}

#[test]
fn out_routes_console_port_only() {
    let (mut cpu, mut bus) = machine(&[0xD3, 0xFD, 0xD3, 0x10]);
    cpu.state_mut().a = b'Z';
    assert_eq!(cpu.step(&mut bus), Ok(()));
    assert_eq!(bus.console().as_slice(), b"Z");
    assert_eq!(cpu.step(&mut bus), Ok(()));
    assert_eq!(bus.console().as_slice(), b"Z");
}

#[test]
fn port_address_indirect_uses_register_c() {
    let mut bus = bus_with_rom(&[]);
    let mut st = State::default();
    st.c = 0x07;
    assert_eq!(PortAddress::Indirect.indirect(&mut st, &mut bus), Ok(0x07));
}

#[test]
fn address_modes_resolve() {
    let mut bus = bus_with_rom(&[0x42, 0x34, 0x12]);
    let mut st = State::default();
    // Zero page: one immediate byte is the low byte of a page-zero address.
    assert_eq!(Address::ZeroPage.indirect(&mut st, &mut bus), Ok(0x0042));
    assert_eq!(st.pc, 1);
    // Direct: a 16-bit immediate is the address.
    assert_eq!(Address::Direct.indirect(&mut st, &mut bus), Ok(0x1234));
    assert_eq!(st.pc, 3);
    // Register-indirect modes read the pair and consume nothing.
    st.set_hl(0xC123);
    assert_eq!(Address::HL.indirect(&mut st, &mut bus), Ok(0xC123));
    assert_eq!(st.pc, 3);
}

#[test]
fn disable_interrupts_clears_both_flip_flops() {
    let (mut cpu, mut bus) = machine(&[0xF3]);
    {
        let st = cpu.state_mut();
        st.iff1 = true;
        st.iff2 = true;
    }
    assert_eq!(cpu.step(&mut bus), Ok(()));
    assert!(!cpu.state().iff1);
    assert!(!cpu.state().iff2);
}

#[test]
fn set_interrupt_mode_stores_verbatim() {
    let (mut cpu, mut bus) = machine(&[0xED, 0x46, 0xED, 0x56, 0xED, 0x5E]);
    assert_eq!(cpu.step(&mut bus), Ok(()));
    assert_eq!(cpu.state().interrupt_mode, 0);
    assert_eq!(cpu.step(&mut bus), Ok(()));
    assert_eq!(cpu.state().interrupt_mode, 1);
    assert_eq!(cpu.step(&mut bus), Ok(()));
    assert_eq!(cpu.state().interrupt_mode, 2);
}

#[test]
fn table_entries_stand_alone() {
    // The table is pure data: 0x5E routes through the same 8-bit load as
    // every other variant, with the operands its entry names (C from H).
    let (mut cpu, mut bus) = machine(&[0x5E]);
    cpu.state_mut().h = 0x09;
    assert_eq!(cpu.step(&mut bus), Ok(()));
    assert_eq!(cpu.state().c, 0x09);
}

#[test]
fn decode_error_primary_is_deterministic() {
    // 0x00 has no entry in the primary table.
    let expected = Err(Error::Decode { opcode: 0x00, table: OpcodeTable::Primary, pc: 0x0000 });
    let (mut cpu1, mut bus1) = machine(&[0x00]);
    let r1 = cpu1.step(&mut bus1);
    let (mut cpu2, mut bus2) = machine(&[0x00]);
    let r2 = cpu2.step(&mut bus2);
    assert_eq!(r1, expected);
    assert_eq!(r2, expected);
    assert_eq!(cpu1.state().pc, cpu2.state().pc);
}

#[test]
fn decode_error_extended_names_table_and_pc() {
    let (mut cpu, mut bus) = machine(&[0xED, 0x01]);
    assert_eq!(
        cpu.step(&mut bus),
        Err(Error::Decode { opcode: 0x01, table: OpcodeTable::Extended, pc: 0x0001 })
    );
    assert_eq!(cpu.state().pc, 0x0002);
}

#[test]
fn fetch_past_image_is_memory_error() {
    // The jump's second target byte lies beyond the one-byte image.
    let (mut cpu, mut bus) = machine(&[0xC3, 0x10]);
    assert_eq!(
        cpu.step(&mut bus),
        Err(Error::Memory { address: 0x0002, access: Access::Read })
    );
}

#[test]
fn vm_run_returns_first_fatal_error() {
    let mut vm = VM::new(Bus::new(Cartridge::from_bytes(&[0x3E, b'A', 0xD3, 0xFD, 0x00])));
    let r = vm.run(100);
    assert_eq!(
        r,
        Err(Error::Decode { opcode: 0x00, table: OpcodeTable::Primary, pc: 0x0004 })
    );
    assert_eq!(vm.console().as_slice(), b"A");
}

#[test]
fn vm_run_budget_elapses_on_a_live_loop() {
    // C3 00 00 is JP 0x0000: a machine that runs forever.
    let mut vm = VM::new(Bus::new(Cartridge::from_bytes(&[0xC3, 0x00, 0x00])));
    assert_eq!(vm.run(50), Ok(()));
    assert_eq!(vm.cpu.state().pc, 0x0000);
}
