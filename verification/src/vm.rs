//! The virtual machine: the bus and the CPU, stepped together. The real
//! machine is continuously powered, so the run loop is unbounded; here a
//! run takes a step budget and reports either the first fatal error or
//! that the budget elapsed without one. A front end re-arms it forever.

use vstd::prelude::*;

use crate::bus::{Bus, BusV};
use crate::cpu::Cpu;
use crate::error::Error;
use crate::operations::visit_spec;
use crate::state::{power_on, State};

verus! {

/// What `n` consecutive decode-execute steps do: step until the budget is
/// spent or a step fails, whichever comes first.
pub open spec fn multi_step(s: State, b: BusV, n: nat) -> (Result<(), Error>, State, BusV)
    decreases n,
{
    if n == 0 {
        (Ok(()), s, b)
    } else {
        let (r1, s1, b1) = visit_spec(s, b);
        match r1 {
            Ok(_) => multi_step(s1, b1, (n - 1) as nat),
            Err(e) => (Err(e), s1, b1),
        }
    }
}

/// Stepping `n` times is stepping `i` times, then `n - i` times more,
/// provided the first `i` steps all succeeded.
pub proof fn lemma_multi_step_split(s: State, b: BusV, i: nat, n: nat)
    requires
        i <= n,
        multi_step(s, b, i).0 is Ok,
    ensures
        multi_step(s, b, n) == multi_step(multi_step(s, b, i).1, multi_step(s, b, i).2, (n - i) as nat),
    decreases i,
{
    if i != 0 {
        let (r1, s1, b1) = visit_spec(s, b);
        match r1 {
            Ok(_) => {
                lemma_multi_step_split(s1, b1, (i - 1) as nat, (n - 1) as nat);
            },
            Err(_) => {},
        }
    }
}

/// The machine: the bus, lent mutably to exactly one step at a time, and
/// the CPU that owns the register state.
pub struct VM {
    pub bus: Bus,
    pub cpu: Cpu,
}

impl VM {
    /// A machine over the given bus, with the CPU at power-on.
    pub fn new(bus: Bus) -> (r: VM)
        ensures
            r.bus@ == bus@,
            r.cpu@ == power_on(),
    {
        VM { bus, cpu: Cpu::new() }
    }

    /// Executes up to `steps` decode-execute steps: returns the first
    /// fatal error, or `Ok` when the budget elapsed without one. The
    /// diagnostic context of the error names the offending opcode or
    /// address.
    pub fn run(&mut self, steps: u64) -> (r: Result<(), Error>)
        requires
            old(self).bus@.wf(),
        ensures
            final(self).bus@.wf(),
            (r, final(self).cpu@, final(self).bus@) == multi_step(
                old(self).cpu@,
                old(self).bus@,
                steps as nat,
            ),
    {
        let ghost s0 = old(self).cpu@;
        let ghost b0 = old(self).bus@;
        let mut i: u64 = 0;
        while i < steps
            invariant
                i <= steps,
                self.bus@.wf(),
                s0 == old(self).cpu@,
                b0 == old(self).bus@,
                multi_step(s0, b0, i as nat) == (Ok::<(), Error>(()), self.cpu@, self.bus@),
            decreases steps - i,
        {
            let ghost si = self.cpu@;
            let ghost bi = self.bus@;
            match self.cpu.step(&mut self.bus) {
                Ok(_) => {
                    proof {
                        lemma_multi_step_split(s0, b0, i as nat, (i + 1) as nat);
                        reveal_with_fuel(multi_step, 2);
                        assert(multi_step(si, bi, 1) == multi_step(s0, b0, (i + 1) as nat));
                    }
                    i = i + 1;
                },
                Err(e) => {
                    proof {
                        lemma_multi_step_split(s0, b0, i as nat, steps as nat);
                        reveal_with_fuel(multi_step, 2);
                        assert((steps - i) as nat != 0);
                        assert(multi_step(si, bi, (steps - i) as nat) == (
                            Err::<(), Error>(e),
                            self.cpu@,
                            self.bus@,
                        ));
                        assert(multi_step(si, bi, (steps - i) as nat) == multi_step(
                            s0,
                            b0,
                            steps as nat,
                        ));
                    }
                    return Err(e);
                },
            }
        }
        Ok(())
    }

    /// The bytes written to the console port so far, oldest first.
    pub fn console(&self) -> (r: &Vec<u8>)
        ensures
            r@ == self.bus@.console,
    {
        self.bus.console()
    }
}

} // verus!
