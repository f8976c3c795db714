//! The bus: the address-space router the core executes against. It
//! partitions the 16-bit address space into a read-only cartridge window
//! (`0x0000..=0xBFFF`), a read/write RAM window (`0xC000..=0xDFFF`), and
//! treats every other address as a fatal unmapped-access error. Port
//! writes are the machine's only side channel: the diagnostic port `0xFD`
//! appends its byte to a console sink; every other port write has no
//! machine-visible effect.

use vstd::prelude::*;

use crate::cartridge::Cartridge;
use crate::error::{Access, Error};

verus! {

/// First address past the ROM window / first address of the RAM window.
pub const RAM_BASE: u16 = 0xc000;

/// First address past the RAM window.
pub const RAM_END: u16 = 0xe000;

/// Size of the RAM window in bytes.
pub const RAM_SIZE: usize = 0x2000;

/// The port whose written bytes are routed to the console sink.
pub const CONSOLE_PORT: u8 = 0xfd;

/// The mathematical model of a bus: the ROM image, the RAM contents, and
/// the bytes written to the console port so far.
#[verifier::ext_equal]
pub struct BusV {
    pub rom: Seq<u8>,
    pub ram: Seq<u8>,
    pub console: Seq<u8>,
}

impl BusV {
    /// The RAM buffer always spans the whole RAM window.
    pub open spec fn wf(self) -> bool {
        self.ram.len() == RAM_SIZE
    }

    /// What reading one byte at `addr` yields: a ROM byte (bounds-checked
    /// against the image), a RAM byte, or a memory error.
    pub open spec fn read_spec(self, addr: u16) -> Result<u8, Error> {
        if addr < RAM_BASE {
            if addr < self.rom.len() {
                Ok(self.rom[addr as int])
            } else {
                Err(Error::Memory { address: addr, access: Access::Read })
            }
        } else if addr < RAM_END {
            Ok(self.ram[addr - RAM_BASE])
        } else {
            Err(Error::Memory { address: addr, access: Access::Read })
        }
    }

    /// What writing one byte at `addr` does: only the RAM window is
    /// writable; everything else is a memory error and leaves the bus as
    /// it was.
    pub open spec fn write_spec(self, addr: u16, val: u8) -> (Result<(), Error>, BusV) {
        if RAM_BASE <= addr < RAM_END {
            (Ok(()), BusV { ram: self.ram.update(addr - RAM_BASE, val), ..self })
        } else {
            (Err(Error::Memory { address: addr, access: Access::Write }), self)
        }
    }

    /// What a port write does: the console port appends its byte to the
    /// console sink; every other port leaves the machine unchanged.
    pub open spec fn out_spec(self, port: u8, val: u8) -> BusV {
        if port == CONSOLE_PORT {
            BusV { console: self.console.push(val), ..self }
        } else {
            self
        }
    }
}

/// The address-space router: ROM reads delegate to the cartridge, RAM
/// reads and writes hit local memory, port writes fan out to the console
/// sink.
pub struct Bus {
    cart: Cartridge,
    ram: Vec<u8>,
    console: Vec<u8>,
}

impl View for Bus {
    type V = BusV;

    closed spec fn view(&self) -> BusV {
        BusV { rom: self.cart@, ram: self.ram@, console: self.console@ }
    }
}

impl Bus {
    /// A bus over the given cartridge, with the RAM window zero-filled and
    /// the console sink empty.
    pub fn new(cart: Cartridge) -> (r: Bus)
        ensures
            r@.wf(),
            r@.rom == cart@,
            r@.ram == Seq::new(RAM_SIZE as nat, |i: int| 0u8),
            r@.console == Seq::<u8>::empty(),
    {
        let mut ram: Vec<u8> = Vec::new();
        while ram.len() < RAM_SIZE
            invariant
                ram@.len() <= RAM_SIZE,
                forall|i: int| 0 <= i < ram@.len() ==> ram@[i] == 0u8,
            decreases RAM_SIZE - ram@.len(),
        {
            ram.push(0);
        }
        proof {
            assert(ram@ =~= Seq::new(RAM_SIZE as nat, |i: int| 0u8));
        }
        Bus { cart, ram, console: Vec::new() }
    }

    /// Reads one byte from the mapped address space.
    pub fn read8(&self, addr: u16) -> (r: Result<u8, Error>)
        requires
            self@.wf(),
        ensures
            r == self@.read_spec(addr),
    {
        if addr < RAM_BASE {
            if (addr as usize) < self.cart.len() {
                Ok(self.cart.read_u8(addr))
            } else {
                Err(Error::Memory { address: addr, access: Access::Read })
            }
        } else if addr < RAM_END {
            Ok(self.ram[(addr - RAM_BASE) as usize])
        } else {
            Err(Error::Memory { address: addr, access: Access::Read })
        }
    }

    /// Writes one byte into the mapped address space.
    pub fn write8(&mut self, addr: u16, val: u8) -> (r: Result<(), Error>)
        requires
            old(self)@.wf(),
        ensures
            final(self)@.wf(),
            (r, final(self)@) == old(self)@.write_spec(addr, val),
    {
        if RAM_BASE <= addr && addr < RAM_END {
            self.ram.set((addr - RAM_BASE) as usize, val);
            Ok(())
        } else {
            Err(Error::Memory { address: addr, access: Access::Write })
        }
    }

    /// Writes one byte to an I/O port.
    pub fn out8(&mut self, port: u8, val: u8)
        ensures
            final(self)@ == old(self)@.out_spec(port, val),
            final(self)@.wf() == old(self)@.wf(),
    {
        if port == CONSOLE_PORT {
            self.console.push(val);
        }
    }

    /// The bytes written to the console port so far, oldest first.
    pub fn console(&self) -> (r: &Vec<u8>)
        ensures
            r@ == self@.console,
    {
        &self.console
    }
}

} // verus!
