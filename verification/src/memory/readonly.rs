//! Read-only memory: one loaded ROM bank. Writes are silently ignored.

use vstd::prelude::*;

use crate::memory::memcell::Memory;

verus! {

/// A read-only region: a loaded ROM image and its address offset.
pub struct ReadOnly {
    data: Vec<u8>,
    ofs: u16,
}

impl Memory for ReadOnly {
    closed spec fn base(&self) -> u16 {
        self.ofs
    }

    closed spec fn contents(&self) -> Seq<u8> {
        self.data@
    }

    closed spec fn stores(&self) -> bool {
        false
    }

    fn get(&self, addr: u16) -> (r: u8) {
        self.data[(addr - self.ofs) as usize]
    }

    fn set(&mut self, _addr: u16, _val: u8) {
    }
}

impl ReadOnly {
    /// Build the region from its offset and loaded image.
    pub fn init(ofs: u16, data: Vec<u8>) -> (r: ReadOnly)
        ensures
            r.base() == ofs,
            r.contents() == data@,
            !r.stores(),
    {
        ReadOnly { data, ofs }
    }
}

} // verus!
