//! Memory bus: a byte of storage at each of the 65536 16-bit addresses,
//! consumed by the execution engine through a single-byte read/write
//! contract. Loading and mapping the address space belong to the caller;
//! the core only ever reads or writes one byte at an address it computes.

use vstd::prelude::*;

verus! {

/// The number of addressable bytes: one per 16-bit address.
pub const ADDRESS_SPACE: usize = 0x10000;

/// The addressable byte storage behind the execution engine.
pub struct MemoryBus {
    pub mem: Vec<u8>,
}

impl MemoryBus {
    /// Well-formed: exactly one byte per 16-bit address, so every read
    /// and write is in bounds.
    pub open spec fn wf(self) -> bool {
        self.mem@.len() == ADDRESS_SPACE
    }

    /// A bus with every byte zero.
    pub fn new() -> (r: MemoryBus)
        ensures
            r.wf(),
            forall|a: int| 0 <= a < ADDRESS_SPACE ==> r.mem@[a] == 0u8,
    {
        let mut mem: Vec<u8> = Vec::new();
        let mut i: usize = 0;
        while i < ADDRESS_SPACE
            invariant
                i == mem@.len(),
                i <= ADDRESS_SPACE,
                forall|a: int| 0 <= a < i ==> mem@[a] == 0u8,
            decreases ADDRESS_SPACE - i,
        {
            mem.push(0);
            i = i + 1;
        }
        MemoryBus { mem }
    }

    /// Reads the byte at an address.
    pub fn read_byte(&self, address: u16) -> (r: u8)
        requires
            self.wf(),
        ensures
            r == self.mem@[address as int],
    {
        self.mem[address as usize]
    }

    /// Writes one byte at an address, leaving every other byte unchanged.
    pub fn write_byte(&mut self, address: u16, value: u8)
        requires
            old(self).wf(),
        ensures
            final(self).wf(),
            final(self).mem@ == old(self).mem@.update(address as int, value),
    {
        self.mem.set(address as usize, value);
    }
}

} // verus!
