//! The memory: one flat array of 65536 bytes, every address readable and
//! writable.

use vstd::prelude::*;

verus! {

/// The number of addressable bytes.
pub const MEMORY_SIZE: usize = 65536;

/// A memory image in which every byte is zero.
pub open spec fn zeroed_image() -> Seq<u8> {
    Seq::new(MEMORY_SIZE as nat, |address: int| 0u8)
}

/// The memory. Its view is the sequence of its 65536 bytes, indexed by
/// address.
pub struct Memory {
    cells: Box<[u8; 65536]>,
}

impl View for Memory {
    type V = Seq<u8>;

    closed spec fn view(&self) -> Seq<u8> {
        self.cells@
    }
}

impl Memory {
    /// Every memory holds exactly `MEMORY_SIZE` bytes.
    pub proof fn lemma_size(&self)
        ensures
            self@.len() == MEMORY_SIZE,
    {
    }

    /// A memory in which every byte is zero.
    pub fn new() -> (memory: Memory)
        ensures
            memory@ == zeroed_image(),
    {
        Memory { cells: Box::new([0u8; 65536]) }
    }

    /// Reads the byte at `address`.
    pub fn read(&self, address: u16) -> (value: u8)
        ensures
            value == self@[address as int],
    {
        self.cells[address as usize]
    }

    /// Stores `value` at `address` and changes no other byte.
    pub fn write(&mut self, address: u16, value: u8)
        ensures
            final(self)@ == old(self)@.update(address as int, value),
    {
        self.cells[address as usize] = value;
    }
}

} // verus!
