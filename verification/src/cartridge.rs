//! The cartridge: an immutable ROM byte buffer loaded once from a flat
//! binary image, read by absolute address and bounds-checked against the
//! image length. Reading the image from disk is the front end's business;
//! the core only ever sees the finished byte buffer.

use vstd::prelude::*;

verus! {

/// An immutable ROM image. Its view is the byte sequence of the image.
pub struct Cartridge {
    rom: Vec<u8>,
}

impl View for Cartridge {
    type V = Seq<u8>;

    closed spec fn view(&self) -> Seq<u8> {
        self.rom@
    }
}

impl Cartridge {
    /// Copies a flat binary image into a fresh cartridge.
    pub fn from_bytes(bytes: &[u8]) -> (r: Cartridge)
        ensures
            r@ == bytes@,
    {
        Cartridge { rom: vstd::slice::slice_to_vec(bytes) }
    }

    /// The size of the loaded image in bytes.
    pub fn len(&self) -> (r: usize)
        ensures
            r == self@.len(),
    {
        self.rom.len()
    }

    /// Reads one byte by absolute address. The caller has already checked
    /// the address against the image length.
    pub fn read_u8(&self, addr: u16) -> (r: u8)
        requires
            addr < self@.len(),
        ensures
            r == self@[addr as int],
    {
        self.rom[addr as usize]
    }
}

} // verus!
