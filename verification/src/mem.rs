//! The memory bus consumed by the CPU core: a flat 64 KiB byte array
//! addressed by `u16`.  The core never owns memory contents beyond this
//! collaborator; every address is already within `0x0000..=0xFFFF` by type.

use vstd::prelude::*;

verus! {

/// Memory backing the CPU: one byte per address of the 16-bit address space.
pub struct Mem {
    pub bytes: Vec<u8>,
}

impl View for Mem {
    type V = Seq<u8>;

    open spec fn view(&self) -> Seq<u8> {
        self.bytes@
    }
}

impl Mem {
    /// A memory is well formed when it covers the whole 16-bit address space.
    pub open spec fn wf(&self) -> bool {
        self@.len() == 0x10000
    }

    /// A fresh memory with every byte zero.
    pub fn new() -> (m: Mem)
        ensures
            m.wf(),
            forall|i: int| 0 <= i < 0x10000 ==> m@[i] == 0,
    {
        let mut bytes: Vec<u8> = Vec::new();
        while bytes.len() < 0x10000
            invariant
                bytes@.len() <= 0x10000,
                forall|i: int| 0 <= i < bytes@.len() ==> bytes@[i] == 0,
            decreases 0x10000 - bytes@.len(),
        {
            bytes.push(0);
        }
        Mem { bytes }
    }

    /// Read the byte stored at `addr`.
    pub fn read(&self, addr: u16) -> (b: u8)
        requires
            self.wf(),
        ensures
            b == self@[addr as int],
    {
        self.bytes[addr as usize]
    }

    /// Store `val` at `addr`, leaving every other byte unchanged.
    pub fn write(&mut self, addr: u16, val: u8)
        requires
            old(self).wf(),
        ensures
            final(self).wf(),
            final(self)@ == old(self)@.update(addr as int, val),
    {
        self.bytes.set(addr as usize, val);
    }
}

} // verus!
