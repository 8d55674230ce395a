//! The address bus: a total byte-capability over the full 16-bit address
//! space, with word access derived from two byte accesses in little-endian
//! order.

use vstd::prelude::*;

use crate::machine::{hi8, lo8, pair16, wrap16};
use crate::util::U16Util;

verus! {

/// Effect of one byte write on the bus's logical memory: the byte is stored
/// where writes take effect and ignored elsewhere (read-only regions).
pub open spec fn bus_write8(mem: Seq<u8>, wr: Set<u16>, addr: u16, v: u8) -> Seq<u8> {
    if wr.contains(addr) {
        mem.update(addr as int, v)
    } else {
        mem
    }
}

/// A byte-addressable view of the whole 64 KiB address space.
///
/// `mem()` is the logical contents, one byte per address; `wr_set()` is the
/// set of addresses where writes take effect. Both are total: resolving an
/// address can never fail once a bus is constructed.
pub trait AddressBus: Sized {
    /// The logical contents of all 65536 addresses.
    spec fn mem(&self) -> Seq<u8>;

    /// The addresses whose writes are stored rather than ignored.
    spec fn wr_set(&self) -> Set<u16>;

    /// The bus's internal invariant, established at construction.
    spec fn wf(&self) -> bool;

    /// A well-formed bus serves the entire address space.
    proof fn wf_mem_len(&self)
        requires
            self.wf(),
        ensures
            self.mem().len() == 0x10000,
    ;

    /// Read the byte at `addr`.
    fn get_mem(&self, addr: u16) -> (r: u8)
        requires
            self.wf(),
        ensures
            r == self.mem()[addr as int],
    ;

    /// Write the byte at `addr`; ignored when `addr` lies in a read-only
    /// region.
    fn set_mem(&mut self, addr: u16, val: u8)
        requires
            old(self).wf(),
        ensures
            final(self).wf(),
            final(self).wr_set() == old(self).wr_set(),
            final(self).mem() == bus_write8(old(self).mem(), old(self).wr_set(), addr, val),
    ;

    /// Read the little-endian word at `addr`: low byte at `addr`, high byte
    /// at `addr + 1`, the address wrapping at 0xFFFF.
    fn get_word(&self, addr: u16) -> (r: u16)
        requires
            self.wf(),
        ensures
            r == pair16(self.mem()[wrap16(addr + 1) as int], self.mem()[addr as int]),
    {
        let lo = self.get_mem(addr);
        let hi = self.get_mem(if addr == 0xffff { 0 } else { addr + 1 });
        U16Util::from_le_bytes(lo, hi)
    }

    /// Write the little-endian word at `addr`: two byte writes, each stored
    /// or ignored according to the region it falls in.
    fn set_word(&mut self, addr: u16, value: u16)
        requires
            old(self).wf(),
        ensures
            final(self).wf(),
            final(self).wr_set() == old(self).wr_set(),
            final(self).mem() == bus_write8(
                bus_write8(old(self).mem(), old(self).wr_set(), addr, lo8(value)),
                old(self).wr_set(),
                wrap16(addr + 1),
                hi8(value),
            ),
    {
        self.set_mem(addr, (value % 256) as u8);
        self.set_mem(if addr == 0xffff { 0 } else { addr + 1 }, (value / 256) as u8);
    }
}

} // verus!
