//! Failure taxonomy of the core: decode errors (an opcode byte absent from
//! its table) and memory errors (an address outside the mapped windows).
//! Both carry the diagnostic context a front end reports before halting.

use vstd::prelude::*;

verus! {

/// Which of the two opcode tables a decode error came from.
#[derive(Clone, Copy, PartialEq, Eq, Structural, Debug)]
pub enum OpcodeTable {
    Primary,
    Extended,
}

/// Whether a failed bus access was a read or a write.
#[derive(Clone, Copy, PartialEq, Eq, Structural, Debug)]
pub enum Access {
    Read,
    Write,
}

/// A fatal condition raised while executing one step.
#[derive(Clone, Copy, PartialEq, Eq, Structural, Debug)]
pub enum Error {
    /// The fetched opcode byte has no entry in the active table.
    Decode { opcode: u8, table: OpcodeTable, pc: u16 },
    /// The address lies outside the ROM and RAM windows, or beyond the
    /// loaded image inside the ROM window.
    Memory { address: u16, access: Access },
}

} // verus!
