//! The capability traits of the addressing layer: "readable as 8-bit",
//! "writable as 8-bit", and the 16-bit counterparts. Every operation of the
//! executor is generic over these, so one implementation serves every
//! opcode variant that differs only in where its operands live.
//!
//! Each trait carries a total functional specification: resolving an
//! operand is a deterministic function of the descriptor, the register
//! state and the bus, returning the value (or the error) together with the
//! state the resolution leaves behind (immediates advance PC). A source
//! never writes the bus; a destination may perform exactly one bus write.

use vstd::prelude::*;

use crate::bus::{Bus, BusV};
use crate::error::Error;
use crate::state::State;

verus! {

/// A descriptor that can be read as an 8-bit value.
pub trait Src8: Sized + Copy {
    /// What reading yields, and the state after the read consumed its
    /// immediate bytes, if any. Reading never changes the bus.
    spec fn src8_spec(self, s: State, b: BusV) -> (Result<u8, Error>, State);

    /// Resolves the descriptor and reads the 8-bit value.
    fn src8(&self, state: &mut State, bus: &mut Bus) -> (r: Result<u8, Error>)
        requires
            old(bus)@.wf(),
        ensures
            final(bus)@ == old(bus)@,
            (r, *final(state)) == self.src8_spec(*old(state), old(bus)@),
    ;
}

/// A descriptor that can be written as an 8-bit value.
pub trait Dst8: Sized + Copy {
    /// What writing does: the outcome, the state after the resolution, and
    /// the bus after at most one write at the resolved address.
    spec fn dst8_spec(self, s: State, b: BusV, v: u8) -> (Result<(), Error>, State, BusV);

    /// Resolves the descriptor and writes the 8-bit value into it.
    fn dst8(&self, state: &mut State, bus: &mut Bus, val: u8) -> (r: Result<(), Error>)
        requires
            old(bus)@.wf(),
        ensures
            final(bus)@.wf(),
            (r, *final(state), final(bus)@) == self.dst8_spec(*old(state), old(bus)@, val),
    ;
}

/// A descriptor that can be read as a 16-bit value.
pub trait Src16: Sized + Copy {
    /// What reading yields, and the state after the read consumed its
    /// immediate bytes, if any. Reading never changes the bus.
    spec fn src16_spec(self, s: State, b: BusV) -> (Result<u16, Error>, State);

    /// Resolves the descriptor and reads the 16-bit value.
    fn src16(&self, state: &mut State, bus: &mut Bus) -> (r: Result<u16, Error>)
        requires
            old(bus)@.wf(),
        ensures
            final(bus)@ == old(bus)@,
            (r, *final(state)) == self.src16_spec(*old(state), old(bus)@),
    ;
}

/// A descriptor that can be written as a 16-bit value.
pub trait Dst16: Sized + Copy {
    /// What writing does: the outcome, the state after, and the bus after.
    spec fn dst16_spec(self, s: State, b: BusV, v: u16) -> (Result<(), Error>, State, BusV);

    /// Resolves the descriptor and writes the 16-bit value into it.
    fn dst16(&self, state: &mut State, bus: &mut Bus, value: u16) -> (r: Result<(), Error>)
        requires
            old(bus)@.wf(),
        ensures
            final(bus)@.wf(),
            (r, *final(state), final(bus)@) == self.dst16_spec(*old(state), old(bus)@, value),
    ;
}

} // verus!
