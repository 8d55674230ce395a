//! Video memory: readable and writable like work memory, but with an
//! external observer. The engine owns and mutates the buffer; a renderer
//! takes a per-frame copy through [`Video::snapshot`] at its yield point,
//! so no storage is ever aliased between the engine and the renderer.

use vstd::prelude::*;

use crate::memory::memcell::Memory;

verus! {

/// The video region: the raster bitmap the machine draws into.
pub struct Video {
    data: Vec<u8>,
    ofs: u16,
}

impl Memory for Video {
    closed spec fn base(&self) -> u16 {
        self.ofs
    }

    closed spec fn contents(&self) -> Seq<u8> {
        self.data@
    }

    closed spec fn stores(&self) -> bool {
        true
    }

    fn get(&self, addr: u16) -> (r: u8) {
        self.data[(addr - self.ofs) as usize]
    }

    fn set(&mut self, addr: u16, val: u8) {
        let i = (addr - self.ofs) as usize;
        self.data[i] = val;
    }
}

impl Video {
    /// Build the region from its offset and initial contents.
    pub fn init(ofs: u16, data: Vec<u8>) -> (r: Video)
        ensures
            r.base() == ofs,
            r.contents() == data@,
            r.stores(),
    {
        Video { data, ofs }
    }

    /// A copy of the current raster contents, for the renderer.
    pub fn snapshot(&self) -> (r: Vec<u8>)
        ensures
            r@ == self.contents(),
    {
        let mut out: Vec<u8> = Vec::new();
        let mut i: usize = 0;
        while i < self.data.len()
            invariant
                i <= self.data.len(),
                out@ == self.data@.subrange(0, i as int),
            decreases self.data.len() - i,
        {
            out.push(self.data[i]);
            i = i + 1;
        }
        proof {
            assert(out@ =~= self.data@);
        }
        out
    }
}

} // verus!
