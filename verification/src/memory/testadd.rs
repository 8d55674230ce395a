//! A flat, fully writable bus over a single 64 KiB buffer, for exercising
//! the engine without the arcade board's region layout.

use vstd::prelude::*;

use crate::memory::address::AddressBus;

verus! {

/// A bus backed by one flat buffer; every address is writable.
pub struct TestAddressing {
    rom: Vec<u8>,
}

impl AddressBus for TestAddressing {
    closed spec fn mem(&self) -> Seq<u8> {
        self.rom@
    }

    closed spec fn wr_set(&self) -> Set<u16> {
        Set::new(|a: u16| true)
    }

    closed spec fn wf(&self) -> bool {
        self.rom@.len() == 0x10000
    }

    proof fn wf_mem_len(&self) {
    }

    fn get_mem(&self, addr: u16) -> (r: u8) {
        self.rom[addr as usize]
    }

    fn set_mem(&mut self, addr: u16, val: u8) {
        self.rom[addr as usize] = val;
    }
}

impl TestAddressing {
    /// Build the bus from the full 65536-byte contents of the address space.
    pub fn new(rom: Vec<u8>) -> (r: TestAddressing)
        requires
            rom.len() == 0x10000,
        ensures
            r.wf(),
            r.mem() == rom@,
            r.wr_set() == Set::new(|a: u16| true),
    {
        TestAddressing { rom }
    }
}

} // verus!
