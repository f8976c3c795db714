//! The operation semantics. Every operation is defined generically over
//! the capability traits of its operands, so one implementation serves
//! every opcode variant that invokes it. Each operation has a total
//! functional specification: from the register state and the bus view it
//! yields the outcome, the new state, and the new bus view, exactly.
//!
//! Flag semantics follow the instruction family: the logical operations
//! set Parity from the result's set-bit count, the compare/subtract family
//! sets Parity/Overflow from the signed-overflow rule (the operands'
//! signs differ and the result's sign differs from the minuend's), and the
//! 16-bit add family leaves Sign, Zero and Parity untouched.

use vstd::prelude::*;

use crate::bus::{Bus, BusV};
use crate::error::Error;
use crate::flags::Flags;
use crate::io::{Dst16, Dst8, Src16, Src8};
use crate::operands::{indirect_spec, port_spec, Address, Condition, PortAddress, Register16};
use crate::state::{
    pair_read_spec, pair_write_spec, pop16_spec, push16_spec, State,
};

verus! {

/// The number of set bits in a byte.
#[verifier::opaque]
pub open spec fn ones8(v: u8) -> int {
    v / 128 % 2 + v / 64 % 2 + v / 32 % 2 + v / 16 % 2 + v / 8 % 2 + v / 4 % 2 + v / 2 % 2 + v % 2
}

/// True iff the byte's set-bit count is even: the logical group's Parity.
pub open spec fn parity_even(v: u8) -> bool {
    ones8(v) % 2 == 0
}

/// Computes the logical-group Parity flag of a result byte.
pub fn parity_of(v: u8) -> (r: bool)
    ensures
        r == parity_even(v),
{
    proof {
        reveal(ones8);
    }
    let n: u8 = v / 128 % 2 + v / 64 % 2 + v / 32 % 2 + v / 16 % 2 + v / 8 % 2 + v / 4 % 2 + v / 2
        % 2 + v % 2;
    n % 2 == 0
}

/// The flag register after a logical operation with the given result:
/// Sign is the result's bit 7, Zero its nullity, Parity its set-bit
/// count's evenness; Half-carry, Add/Subtract and Carry clear. The two
/// unnamed bits keep their values.
pub open spec fn logic_flags(f: Flags, res: u8) -> Flags {
    Flags { s: res >= 128, z: res == 0, h: false, p: parity_even(res), n: false, c: false, ..f }
}

/// What `A - v - cin` leaves in the accumulator width, wrapping.
pub open spec fn sub_result(a: u8, v: u8, cin: bool) -> u8 {
    ((a - v - (if cin { 1int } else { 0int })) % 256) as u8
}

/// The flag register after the compare/subtract family computed
/// `A - v - cin`: Sign from the result's bit 7, Zero from its nullity,
/// Half-carry from the borrow out of the low nibble, Parity/Overflow from
/// the signed-overflow rule, Add/Subtract set, Carry from the unsigned
/// borrow. The two unnamed bits keep their values.
pub open spec fn sub_flags(f: Flags, a: u8, v: u8, cin: bool) -> Flags {
    let ci = if cin { 1int } else { 0int };
    let r = sub_result(a, v, cin);
    Flags {
        s: r >= 128,
        z: r == 0,
        h: v % 16 + ci > a % 16,
        p: ((a >= 128) != (v >= 128)) && ((r >= 128) != (a >= 128)),
        n: true,
        c: a - v - ci < 0,
        ..f
    }
}

/// What `load8` does: read the source, write the destination; no flag
/// effect. A failed source read stops before the destination is touched.
pub open spec fn load8_spec<D: Dst8, S: Src8>(s: State, b: BusV, dst: D, src: S) -> (
    Result<(), Error>,
    State,
    BusV,
) {
    match src.src8_spec(s, b) {
        (Ok(v), s1) => dst.dst8_spec(s1, b, v),
        (Err(e), s1) => (Err(e), s1, b),
    }
}

/// Reads an 8-bit source and writes it to an 8-bit destination.
pub fn load8<D: Dst8, S: Src8>(state: &mut State, bus: &mut Bus, dst: D, src: S) -> (r: Result<
    (),
    Error,
>)
    requires
        old(bus)@.wf(),
    ensures
        final(bus)@.wf(),
        (r, *final(state), final(bus)@) == load8_spec(*old(state), old(bus)@, dst, src),
{
    match src.src8(state, bus) {
        Ok(v) => dst.dst8(state, bus, v),
        Err(e) => Err(e),
    }
}

/// What `load16` does: read the source, write the destination; no flag
/// effect.
pub open spec fn load16_spec<D: Dst16, S: Src16>(s: State, b: BusV, dst: D, src: S) -> (
    Result<(), Error>,
    State,
    BusV,
) {
    match src.src16_spec(s, b) {
        (Ok(v), s1) => dst.dst16_spec(s1, b, v),
        (Err(e), s1) => (Err(e), s1, b),
    }
}

/// Reads a 16-bit source and writes it to a 16-bit destination.
pub fn load16<D: Dst16, S: Src16>(state: &mut State, bus: &mut Bus, dst: D, src: S) -> (r: Result<
    (),
    Error,
>)
    requires
        old(bus)@.wf(),
    ensures
        final(bus)@.wf(),
        (r, *final(state), final(bus)@) == load16_spec(*old(state), old(bus)@, dst, src),
{
    match src.src16(state, bus) {
        Ok(v) => dst.dst16(state, bus, v),
        Err(e) => Err(e),
    }
}

/// What `push16` does: read the 16-bit source, then push it per the stack
/// discipline; no flag effect.
pub open spec fn push16_op_spec<S: Src16>(s: State, b: BusV, src: S) -> (
    Result<(), Error>,
    State,
    BusV,
) {
    match src.src16_spec(s, b) {
        (Ok(v), s1) => push16_spec(s1, b, v),
        (Err(e), s1) => (Err(e), s1, b),
    }
}

/// Reads a 16-bit source and pushes it onto the stack.
pub fn push16<S: Src16>(state: &mut State, bus: &mut Bus, src: S) -> (r: Result<(), Error>)
    requires
        old(bus)@.wf(),
    ensures
        final(bus)@.wf(),
        (r, *final(state), final(bus)@) == push16_op_spec(*old(state), old(bus)@, src),
{
    match src.src16(state, bus) {
        Ok(v) => state.push16(bus, v),
        Err(e) => Err(e),
    }
}

/// What `pop16` does: pop a 16-bit value per the stack discipline, then
/// write it to the destination; no flag effect.
pub open spec fn pop16_op_spec<D: Dst16>(s: State, b: BusV, dst: D) -> (
    Result<(), Error>,
    State,
    BusV,
) {
    match pop16_spec(s, b) {
        (Ok(v), s1) => dst.dst16_spec(s1, b, v),
        (Err(e), s1) => (Err(e), s1, b),
    }
}

/// Pops a 16-bit value off the stack into the destination.
pub fn pop16<D: Dst16>(state: &mut State, bus: &mut Bus, dst: D) -> (r: Result<(), Error>)
    requires
        old(bus)@.wf(),
    ensures
        final(bus)@.wf(),
        (r, *final(state), final(bus)@) == pop16_op_spec(*old(state), old(bus)@, dst),
{
    match state.pop16(bus) {
        Ok(v) => dst.dst16(state, bus, v),
        Err(e) => Err(e),
    }
}

/// What `ex_de_hl` does: swap the DE and HL pairs; no flag effect.
pub open spec fn ex_de_hl_spec(s: State) -> State {
    State { d: s.h, e: s.l, h: s.d, l: s.e, ..s }
}

/// Exchanges the DE and HL register pairs.
pub fn ex_de_hl(state: &mut State)
    ensures
        *final(state) == ex_de_hl_spec(*old(state)),
{
    *state = State { d: state.h, e: state.l, h: state.d, l: state.e, ..*state };
}

/// What one block-copy step does: copy the byte at address HL to address
/// DE, then increment DE, increment HL and decrement BC, all wrapping; no
/// flag effect. A failed read or write leaves every register unchanged.
pub open spec fn ldi_spec(s: State, b: BusV) -> (Result<(), Error>, State, BusV) {
    let src_addr = pair_read_spec(s, Register16::HL);
    let dst_addr = pair_read_spec(s, Register16::DE);
    let bc = pair_read_spec(s, Register16::BC);
    match b.read_spec(src_addr) {
        Ok(v) => {
            let (wr, b1) = b.write_spec(dst_addr, v);
            match wr {
                Ok(_) => {
                    let s1 = pair_write_spec(s, Register16::DE, dst_addr.wrapping_add(1));
                    let s2 = pair_write_spec(s1, Register16::HL, src_addr.wrapping_add(1));
                    let s3 = pair_write_spec(s2, Register16::BC, bc.wrapping_sub(1));
                    (Ok(()), s3, b1)
                },
                Err(e) => (Err(e), s, b1),
            }
        },
        Err(e) => (Err(e), s, b),
    }
}

/// Copies one byte from address HL to address DE, advancing DE and HL and
/// counting BC down.
pub fn ldi(state: &mut State, bus: &mut Bus) -> (r: Result<(), Error>)
    requires
        old(bus)@.wf(),
    ensures
        final(bus)@.wf(),
        (r, *final(state), final(bus)@) == ldi_spec(*old(state), old(bus)@),
{
    let src_addr = state.hl();
    let val = match bus.read8(src_addr) {
        Ok(v) => v,
        Err(e) => {
            return Err(e);
        },
    };
    let dst_addr = state.de();
    let bc = state.bc();
    match bus.write8(dst_addr, val) {
        Ok(_) => {},
        Err(e) => {
            return Err(e);
        },
    }
    state.set_de(dst_addr.wrapping_add(1));
    state.set_hl(src_addr.wrapping_add(1));
    state.set_bc(bc.wrapping_sub(1));
    Ok(())
}

/// What one repeated-block-copy step does: one `ldi`; then, if BC is not
/// yet zero, rewind PC by the two bytes of this instruction's encoding so
/// the next fetch re-executes the same opcode. Each repetition is its own
/// decode-execute step.
pub open spec fn ldir_spec(s: State, b: BusV) -> (Result<(), Error>, State, BusV) {
    match ldi_spec(s, b) {
        (Ok(_), s1, b1) => if pair_read_spec(s1, Register16::BC) != 0 {
            (Ok(()), State { pc: s1.pc.wrapping_sub(2), ..s1 }, b1)
        } else {
            (Ok(()), s1, b1)
        },
        (Err(e), s1, b1) => (Err(e), s1, b1),
    }
}

/// Performs one step of the repeated block copy.
pub fn ldir(state: &mut State, bus: &mut Bus) -> (r: Result<(), Error>)
    requires
        old(bus)@.wf(),
    ensures
        final(bus)@.wf(),
        (r, *final(state), final(bus)@) == ldir_spec(*old(state), old(bus)@),
{
    match ldi(state, bus) {
        Ok(_) => {},
        Err(e) => {
            return Err(e);
        },
    }
    if state.bc() != 0 {
        *state = State { pc: state.pc.wrapping_sub(2), ..*state };
    }
    Ok(())
}

/// What `xor` does: combine the accumulator with the operand by bitwise
/// exclusive or, store into the accumulator, and set the logical-group
/// flags of the result.
pub open spec fn xor_spec<S: Src8>(s: State, b: BusV, src: S) -> (Result<(), Error>, State, BusV) {
    match src.src8_spec(s, b) {
        (Ok(v), s1) => {
            let res = s1.a ^ v;
            (Ok(()), State { a: res, f: logic_flags(s1.f, res), ..s1 }, b)
        },
        (Err(e), s1) => (Err(e), s1, b),
    }
}

/// Exclusive-ors the operand into the accumulator.
pub fn xor<S: Src8>(state: &mut State, bus: &mut Bus, src: S) -> (r: Result<(), Error>)
    requires
        old(bus)@.wf(),
    ensures
        final(bus)@.wf(),
        (r, *final(state), final(bus)@) == xor_spec(*old(state), old(bus)@, src),
{
    let val = match src.src8(state, bus) {
        Ok(v) => v,
        Err(e) => {
            return Err(e);
        },
    };
    let res = state.a ^ val;
    let p = parity_of(res);
    *state = State {
        a: res,
        f: Flags { s: res >= 128, z: res == 0, h: false, p, n: false, c: false, ..state.f },
        ..*state
    };
    Ok(())
}

/// What `or` does: combine the accumulator with the operand by bitwise or,
/// store into the accumulator, and set the logical-group flags of the
/// result.
pub open spec fn or_spec<S: Src8>(s: State, b: BusV, src: S) -> (Result<(), Error>, State, BusV) {
    match src.src8_spec(s, b) {
        (Ok(v), s1) => {
            let res = s1.a | v;
            (Ok(()), State { a: res, f: logic_flags(s1.f, res), ..s1 }, b)
        },
        (Err(e), s1) => (Err(e), s1, b),
    }
}

/// Ors the operand into the accumulator.
pub fn or<S: Src8>(state: &mut State, bus: &mut Bus, src: S) -> (r: Result<(), Error>)
    requires
        old(bus)@.wf(),
    ensures
        final(bus)@.wf(),
        (r, *final(state), final(bus)@) == or_spec(*old(state), old(bus)@, src),
{
    let val = match src.src8(state, bus) {
        Ok(v) => v,
        Err(e) => {
            return Err(e);
        },
    };
    let res = state.a | val;
    let p = parity_of(res);
    *state = State {
        a: res,
        f: Flags { s: res >= 128, z: res == 0, h: false, p, n: false, c: false, ..state.f },
        ..*state
    };
    Ok(())
}

/// Computes `A - val - carry`, sets the compare/subtract flags, and
/// returns the result without storing it.
pub fn subc_impl(state: &mut State, val: u8, carry: bool) -> (r: u8)
    ensures
        r == sub_result(old(state).a, val, carry),
        *final(state) == (State { f: sub_flags(old(state).f, old(state).a, val, carry), ..*old(
            state,
        ) }),
{
    let ci: u8 = if carry {
        1
    } else {
        0
    };
    let borrow = state.a < val;
    let tmp = state.a.wrapping_sub(val);
    let borrow_c = tmp < ci;
    let res = tmp.wrapping_sub(ci);
    let half = val % 16 + ci > state.a % 16;
    let ovf = ((state.a >= 128) != (val >= 128)) && ((res >= 128) != (state.a >= 128));
    *state = State {
        f: Flags {
            s: res >= 128,
            z: res == 0,
            h: half,
            p: ovf,
            n: true,
            c: borrow || borrow_c,
            ..state.f
        },
        ..*state
    };
    res
}

/// What `cp` does: compute `A - operand` without storing the result, and
/// set the compare/subtract flags.
pub open spec fn cp_spec<S: Src8>(s: State, b: BusV, src: S) -> (Result<(), Error>, State, BusV) {
    match src.src8_spec(s, b) {
        (Ok(v), s1) => (Ok(()), State { f: sub_flags(s1.f, s1.a, v, false), ..s1 }, b),
        (Err(e), s1) => (Err(e), s1, b),
    }
}

/// Compares the operand against the accumulator.
pub fn cp<S: Src8>(state: &mut State, bus: &mut Bus, src: S) -> (r: Result<(), Error>)
    requires
        old(bus)@.wf(),
    ensures
        final(bus)@.wf(),
        (r, *final(state), final(bus)@) == cp_spec(*old(state), old(bus)@, src),
{
    let val = match src.src8(state, bus) {
        Ok(v) => v,
        Err(e) => {
            return Err(e);
        },
    };
    subc_impl(state, val, false);
    Ok(())
}

/// What `disable_interrupts` does: clear both enable flip-flops; no flag
/// effect.
pub open spec fn disable_interrupts_spec(s: State) -> State {
    State { iff1: false, iff2: false, ..s }
}

/// Clears both interrupt-enable flip-flops.
pub fn disable_interrupts(state: &mut State)
    ensures
        *final(state) == disable_interrupts_spec(*old(state)),
{
    *state = State { iff1: false, iff2: false, ..*state };
}

/// What `set_interrupt_mode` does: store the mode selector verbatim; no
/// flag effect.
pub open spec fn set_interrupt_mode_spec(s: State, mode: u8) -> State {
    State { interrupt_mode: mode, ..s }
}

/// Stores the interrupt-mode selector.
pub fn set_interrupt_mode(state: &mut State, mode: u8)
    ensures
        *final(state) == set_interrupt_mode_spec(*old(state), mode),
{
    *state = State { interrupt_mode: mode, ..*state };
}

/// What `add16` does: sum two register pairs into the destination pair,
/// wrapping; Half-carry from the carry out of bit 11, Carry from the carry
/// out of bit 15, Add/Subtract clear; Sign, Zero and Parity untouched.
pub open spec fn add16_spec(s: State, d: Register16, src: Register16) -> State {
    let l = pair_read_spec(s, d);
    let r = pair_read_spec(s, src);
    let res = ((l + r) % 0x10000) as u16;
    let s1 = pair_write_spec(s, d, res);
    State {
        f: Flags { h: l % 0x1000 + r % 0x1000 > 0xfff, n: false, c: l + r > 0xffff, ..s1.f },
        ..s1
    }
}

/// Adds one register pair into another.
pub fn add16(state: &mut State, d: Register16, s: Register16)
    ensures
        *final(state) == add16_spec(*old(state), d, s),
{
    let left = state.pair_read(d);
    let right = state.pair_read(s);
    let sum: u32 = left as u32 + right as u32;
    let res: u16 = (sum % 0x10000) as u16;
    let half = left % 0x1000 + right % 0x1000 > 0xfff;
    let carry = sum > 0xffff;
    state.pair_write(d, res);
    *state = State { f: Flags { h: half, n: false, c: carry, ..state.f }, ..*state };
}

/// What `inc16` does: a modular increment of a register pair; no flag
/// effect.
pub open spec fn inc16_spec(s: State, r: Register16) -> State {
    pair_write_spec(s, r, pair_read_spec(s, r).wrapping_add(1))
}

/// Increments a register pair, wrapping.
pub fn inc16(state: &mut State, r: Register16)
    ensures
        *final(state) == inc16_spec(*old(state), r),
{
    let val = state.pair_read(r);
    state.pair_write(r, val.wrapping_add(1));
}

/// What `dec16` does: a modular decrement of a register pair; no flag
/// effect.
pub open spec fn dec16_spec(s: State, r: Register16) -> State {
    pair_write_spec(s, r, pair_read_spec(s, r).wrapping_sub(1))
}

/// Decrements a register pair, wrapping.
pub fn dec16(state: &mut State, r: Register16)
    ensures
        *final(state) == dec16_spec(*old(state), r),
{
    let val = state.pair_read(r);
    state.pair_write(r, val.wrapping_sub(1));
}

/// What a jump does: resolve the target address always, even when the
/// condition is false, so the operand bytes are consumed consistently;
/// then set PC to the target iff the condition holds.
pub open spec fn jump_spec<C: Condition>(s: State, b: BusV, addr: Address, cond: C) -> (
    Result<(), Error>,
    State,
    BusV,
) {
    match indirect_spec(addr, s, b) {
        (Ok(target), s1) => if cond.holds(s1) {
            (Ok(()), State { pc: target, ..s1 }, b)
        } else {
            (Ok(()), s1, b)
        },
        (Err(e), s1) => (Err(e), s1, b),
    }
}

/// Jumps to the resolved address iff the condition holds.
pub fn jump<C: Condition>(state: &mut State, bus: &mut Bus, addr: Address, cond: C) -> (r: Result<
    (),
    Error,
>)
    requires
        old(bus)@.wf(),
    ensures
        final(bus)@ == old(bus)@,
        (r, *final(state), final(bus)@) == jump_spec(*old(state), old(bus)@, addr, cond),
{
    let target = match addr.indirect(state, bus) {
        Ok(t) => t,
        Err(e) => {
            return Err(e);
        },
    };
    if cond.check(state) {
        *state = State { pc: target, ..*state };
    }
    Ok(())
}

/// What a relative jump does: fetch the signed displacement always, to
/// consume the byte; if the condition holds, add it (sign-extended) to the
/// already-advanced PC, wrapping.
pub open spec fn jr_spec<C: Condition>(s: State, b: BusV, cond: C) -> (
    Result<(), Error>,
    State,
    BusV,
) {
    match crate::state::next8_spec(s, b) {
        (Ok(off), s1) => if cond.holds(s1) {
            (Ok(()), State { pc: s1.pc.wrapping_add(off as i8 as u16), ..s1 }, b)
        } else {
            (Ok(()), s1, b)
        },
        (Err(e), s1) => (Err(e), s1, b),
    }
}

/// Jumps by a signed 8-bit displacement iff the condition holds.
pub fn jr<C: Condition>(state: &mut State, bus: &mut Bus, cond: C) -> (r: Result<(), Error>)
    requires
        old(bus)@.wf(),
    ensures
        final(bus)@ == old(bus)@,
        (r, *final(state), final(bus)@) == jr_spec(*old(state), old(bus)@, cond),
{
    let offset = match state.next8(bus) {
        Ok(v) => v,
        Err(e) => {
            return Err(e);
        },
    };
    if cond.check(state) {
        *state = State { pc: state.pc.wrapping_add(offset as i8 as u16), ..*state };
    }
    Ok(())
}

/// What a call does: resolve the target address always; if the condition
/// holds, push the return address (PC already points past the call
/// instruction) and set PC to the target.
pub open spec fn call_spec<C: Condition>(s: State, b: BusV, addr: Address, cond: C) -> (
    Result<(), Error>,
    State,
    BusV,
) {
    match indirect_spec(addr, s, b) {
        (Ok(target), s1) => if cond.holds(s1) {
            let (pr, s2, b2) = push16_spec(s1, b, s1.pc);
            match pr {
                Ok(_) => (Ok(()), State { pc: target, ..s2 }, b2),
                Err(e) => (Err(e), s2, b2),
            }
        } else {
            (Ok(()), s1, b)
        },
        (Err(e), s1) => (Err(e), s1, b),
    }
}

/// Calls the resolved address iff the condition holds, pushing the return
/// address first.
pub fn call<C: Condition>(state: &mut State, bus: &mut Bus, addr: Address, cond: C) -> (r: Result<
    (),
    Error,
>)
    requires
        old(bus)@.wf(),
    ensures
        final(bus)@.wf(),
        (r, *final(state), final(bus)@) == call_spec(*old(state), old(bus)@, addr, cond),
{
    let target = match addr.indirect(state, bus) {
        Ok(t) => t,
        Err(e) => {
            return Err(e);
        },
    };
    if cond.check(state) {
        let pc = state.pc;
        match state.push16(bus, pc) {
            Ok(_) => {},
            Err(e) => {
                return Err(e);
            },
        }
        *state = State { pc: target, ..*state };
    }
    Ok(())
}

/// What a return does: pop a 16-bit value into PC, unconditionally.
pub open spec fn ret_spec(s: State, b: BusV) -> (Result<(), Error>, State, BusV) {
    match pop16_spec(s, b) {
        (Ok(v), s1) => (Ok(()), State { pc: v, ..s1 }, b),
        (Err(e), s1) => (Err(e), s1, b),
    }
}

/// Pops the return address into PC.
pub fn ret(state: &mut State, bus: &mut Bus) -> (r: Result<(), Error>)
    requires
        old(bus)@.wf(),
    ensures
        final(bus)@ == old(bus)@,
        (r, *final(state), final(bus)@) == ret_spec(*old(state), old(bus)@),
{
    let pc = match state.pop16(bus) {
        Ok(v) => v,
        Err(e) => {
            return Err(e);
        },
    };
    *state = State { pc, ..*state };
    Ok(())
}

/// What a port output does: resolve the 8-bit value, then the port number
/// (value before port, matching the instruction encoding order), and
/// forward both to the bus's port-write handler.
pub open spec fn out_op_spec<S: Src8>(s: State, b: BusV, port: PortAddress, src: S) -> (
    Result<(), Error>,
    State,
    BusV,
) {
    match src.src8_spec(s, b) {
        (Ok(v), s1) => match port_spec(port, s1, b) {
            (Ok(p), s2) => (Ok(()), s2, b.out_spec(p, v)),
            (Err(e), s2) => (Err(e), s2, b),
        },
        (Err(e), s1) => (Err(e), s1, b),
    }
}

/// Writes the resolved value to the resolved port.
pub fn out<S: Src8>(state: &mut State, bus: &mut Bus, port: PortAddress, src: S) -> (r: Result<
    (),
    Error,
>)
    requires
        old(bus)@.wf(),
    ensures
        final(bus)@.wf(),
        (r, *final(state), final(bus)@) == out_op_spec(*old(state), old(bus)@, port, src),
{
    let val = match src.src8(state, bus) {
        Ok(v) => v,
        Err(e) => {
            return Err(e);
        },
    };
    let p = match port.indirect(state, bus) {
        Ok(v) => v,
        Err(e) => {
            return Err(e);
        },
    };
    bus.out8(p, val);
    Ok(())
}

/// Exclusive-oring the accumulator with itself clears it and leaves the
/// flags in the canonical state of a zero logical result: Zero set; Sign,
/// Half-carry, Add/Subtract and Carry clear; Parity set (zero set bits is
/// an even count) — whatever the starting accumulator held.
pub proof fn lemma_xor_a_clears(s: State, b: BusV)
    ensures
        xor_spec(s, b, crate::operands::Register8::A).0 is Ok,
        xor_spec(s, b, crate::operands::Register8::A).2 == b,
        ({
            let s1 = xor_spec(s, b, crate::operands::Register8::A).1;
            s1.a == 0 && s1.f.z && !s1.f.s && !s1.f.h && !s1.f.n && !s1.f.c && s1.f.p
        }),
{
    let a = s.a;
    assert(a ^ a == 0) by (bit_vector);
    reveal(ones8);
}

/// Comparing two equal 8-bit operands sets Zero and clears Carry,
/// whatever the operand value: the flags of `A - v` with `v == A`.
pub proof fn lemma_cp_equal_flags(f: Flags, a: u8)
    ensures
        sub_flags(f, a, a, false).z,
        !sub_flags(f, a, a, false).c,
{
}

/// Comparing a register that holds the accumulator's own value against
/// the accumulator sets Zero and clears Carry.
pub proof fn lemma_cp_equal_operands(s: State, b: BusV, r: crate::operands::Register8)
    requires
        crate::operands::reg8_read(s, r) == s.a,
    ensures
        cp_spec(s, b, r).0 is Ok,
        cp_spec(s, b, r).1.f.z,
        !cp_spec(s, b, r).1.f.c,
{
}

/// A direct conditional jump consumes its two target bytes always: with a
/// false condition PC rests immediately past the instruction's encoded
/// bytes; with a true condition PC equals the resolved target. Nothing
/// else changes either way.
pub proof fn lemma_jump_condition(s: State, b: BusV, cond: crate::operations::Cond)
    requires
        b.read_spec(s.pc) is Ok,
        b.read_spec(s.pc.wrapping_add(1)) is Ok,
    ensures
        jump_spec(s, b, Address::Direct, cond).0 is Ok,
        jump_spec(s, b, Address::Direct, cond).2 == b,
        ({
            let target = crate::state::pair(
                b.read_spec(s.pc.wrapping_add(1)).unwrap(),
                b.read_spec(s.pc).unwrap(),
            );
            let past = State { pc: s.pc.wrapping_add(2), ..s };
            let s1 = jump_spec(s, b, Address::Direct, cond).1;
            if cond.holds(s) {
                s1 == State { pc: target, ..past }
            } else {
                s1 == past
            }
        }),
{
}

/// A conditional relative jump consumes its displacement byte always:
/// with a false condition PC rests immediately past the instruction's
/// encoded bytes; with a true condition the sign-extended displacement is
/// added to that PC, wrapping.
pub proof fn lemma_jr_condition(s: State, b: BusV, cond: crate::operations::Cond)
    requires
        b.read_spec(s.pc) is Ok,
    ensures
        jr_spec(s, b, cond).0 is Ok,
        jr_spec(s, b, cond).2 == b,
        ({
            let off = b.read_spec(s.pc).unwrap();
            let past = State { pc: s.pc.wrapping_add(1), ..s };
            let s1 = jr_spec(s, b, cond).1;
            if cond.holds(s) {
                s1 == State { pc: past.pc.wrapping_add(off as i8 as u16), ..past }
            } else {
                s1 == past
            }
        }),
{
}

/// A conditional call consumes its two target bytes always. With a false
/// condition PC rests immediately past the instruction's encoded bytes
/// and the stack is untouched. With a true condition, and the two stack
/// bytes inside the RAM window, PC equals the target, SP has moved down
/// by two, and the word stored at the pre-call SP minus two is exactly
/// the address of the instruction following the call.
pub proof fn lemma_call_condition(s: State, b: BusV, cond: crate::operations::Cond)
    requires
        b.wf(),
        b.read_spec(s.pc) is Ok,
        b.read_spec(s.pc.wrapping_add(1)) is Ok,
        crate::bus::RAM_BASE <= s.sp.wrapping_sub(1) < crate::bus::RAM_END,
        crate::bus::RAM_BASE <= s.sp.wrapping_sub(2) < crate::bus::RAM_END,
    ensures
        call_spec(s, b, Address::Direct, cond).0 is Ok,
        ({
            let target = crate::state::pair(
                b.read_spec(s.pc.wrapping_add(1)).unwrap(),
                b.read_spec(s.pc).unwrap(),
            );
            let past = State { pc: s.pc.wrapping_add(2), ..s };
            let (r, s1, b1) = call_spec(s, b, Address::Direct, cond);
            if cond.holds(s) {
                s1 == State { pc: target, sp: s.sp.wrapping_sub(2), ..past }
                    && b1.read_spec(s.sp.wrapping_sub(2)) == Ok::<u8, Error>(
                    crate::state::lo8(past.pc),
                ) && b1.read_spec(s.sp.wrapping_sub(1)) == Ok::<u8, Error>(
                    crate::state::hi8(past.pc),
                )
            } else {
                s1 == past && b1 == b
            }
        }),
{
}

/// Adding BC into HL sets Half-carry exactly when bits 0 to 11 of the
/// operands sum to 0x1000 or more, sets Carry exactly when the 16-bit sum
/// overflows 0xFFFF, and leaves Sign, Zero and Parity untouched.
pub proof fn lemma_add16_hl_bc_flags(s: State)
    ensures
        ({
            let hl = pair_read_spec(s, Register16::HL);
            let bc = pair_read_spec(s, Register16::BC);
            let s1 = add16_spec(s, Register16::HL, Register16::BC);
            s1.f.h == (hl % 0x1000 + bc % 0x1000 >= 0x1000) && s1.f.c == (hl + bc > 0xffff)
                && s1.f.s == s.f.s && s1.f.z == s.f.z && s1.f.p == s.f.p && !s1.f.n
        }),
{
}

} // verus!

