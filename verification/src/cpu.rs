//! The CPU: it owns the register/flag state exclusively and executes one
//! decode-execute step at a time against a borrowed bus.

use vstd::prelude::*;

use crate::bus::Bus;
use crate::error::Error;
use crate::operations::{visit, visit_spec};
use crate::state::{power_on, State};

verus! {

/// The CPU: the register file plus the step driver.
pub struct Cpu {
    state: State,
}

impl View for Cpu {
    type V = State;

    closed spec fn view(&self) -> State {
        self.state
    }
}

impl Cpu {
    /// A CPU in the power-on state.
    pub fn new() -> (r: Cpu)
        ensures
            r@ == power_on(),
    {
        Cpu { state: State::default() }
    }

    /// Executes one decode-execute step: one fetch, one opcode, one
    /// effect.
    pub fn step(&mut self, b: &mut Bus) -> (r: Result<(), Error>)
        requires
            old(b)@.wf(),
        ensures
            final(b)@.wf(),
            (r, final(self)@, final(b)@) == visit_spec(old(self)@, old(b)@),
    {
        visit(&mut self.state, b)
    }

    /// The register file, for inspection.
    pub fn state(&self) -> (r: &State)
        ensures
            *r == self@,
    {
        &self.state
    }

    /// The register file, for direct manipulation.
    pub fn state_mut(&mut self) -> (r: &mut State)
        ensures
            *r == old(self)@,
            final(self)@ == *final(r),
    {
        &mut self.state
    }
}

} // verus!
