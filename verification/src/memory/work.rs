//! Work memory: a private, fully readable and writable region.

use vstd::prelude::*;

use crate::memory::memcell::Memory;

verus! {

/// A writable region with a private backing buffer.
pub struct Work {
    data: Vec<u8>,
    ofs: u16,
}

impl Memory for Work {
    closed spec fn base(&self) -> u16 {
        self.ofs
    }

    closed spec fn contents(&self) -> Seq<u8> {
        self.data@
    }

    closed spec fn stores(&self) -> bool {
        true
    }

    fn get(&self, addr: u16) -> (r: u8) {
        self.data[(addr - self.ofs) as usize]
    }

    fn set(&mut self, addr: u16, val: u8) {
        let i = (addr - self.ofs) as usize;
        self.data[i] = val;
    }
}

impl Work {
    /// Build the region from its offset and initial contents.
    pub fn init(ofs: u16, data: Vec<u8>) -> (r: Work)
        ensures
            r.base() == ofs,
            r.contents() == data@,
            r.stores(),
    {
        Work { data, ofs }
    }
}

} // verus!
