//! A board holding only the arcade hardware’s base regions — four 2 KiB ROM
//! banks, work memory and video memory — without the upper writable
//! mirror. It serves addresses 0x0000–0x3FFF; asking it for an address
//! beyond that range is a caller error, ruled out by contract.

use vstd::prelude::*;

use crate::memory::{Memory, ReadOnly, Video, Work};
use crate::util::zeroed;

verus! {

/// The partitioned 16 KiB board: ROM, work and video regions.
pub struct MotherBoard {
    read_only_h: ReadOnly,
    read_only_g: ReadOnly,
    read_only_f: ReadOnly,
    read_only_e: ReadOnly,
    work_ram: Work,
    video_ram: Video,
}

impl MotherBoard {
    /// The logical contents of the 0x0000–0x3FFF range.
    pub closed spec fn mem(&self) -> Seq<u8> {
        Seq::new(0x4000, |i: int|
            if i < 0x800 {
                self.read_only_h.contents()[i]
            } else if i < 0x1000 {
                self.read_only_g.contents()[i - 0x800]
            } else if i < 0x1800 {
                self.read_only_f.contents()[i - 0x1000]
            } else if i < 0x2000 {
                self.read_only_e.contents()[i - 0x1800]
            } else if i < 0x2400 {
                self.work_ram.contents()[i - 0x2000]
            } else {
                self.video_ram.contents()[i - 0x2400]
            })
    }

    /// The board's invariant: the regions stand at their hardware offsets.
    pub closed spec fn wf(&self) -> bool {
        &&& self.read_only_h.base() == 0x0000
        &&& self.read_only_h.contents().len() == 0x800
        &&& !self.read_only_h.stores()
        &&& self.read_only_g.base() == 0x0800
        &&& self.read_only_g.contents().len() == 0x800
        &&& !self.read_only_g.stores()
        &&& self.read_only_f.base() == 0x1000
        &&& self.read_only_f.contents().len() == 0x800
        &&& !self.read_only_f.stores()
        &&& self.read_only_e.base() == 0x1800
        &&& self.read_only_e.contents().len() == 0x800
        &&& !self.read_only_e.stores()
        &&& self.work_ram.base() == 0x2000
        &&& self.work_ram.contents().len() == 0x400
        &&& self.work_ram.stores()
        &&& self.video_ram.base() == 0x2400
        &&& self.video_ram.contents().len() == 0x1c00
        &&& self.video_ram.stores()
    }

    /// Assemble the board from its four loaded 2 KiB ROM banks; work and
    /// video memory start zeroed.
    pub fn new(h_arr: Vec<u8>, g_arr: Vec<u8>, f_arr: Vec<u8>, e_arr: Vec<u8>) -> (r: Self)
        requires
            h_arr.len() == 0x800,
            g_arr.len() == 0x800,
            f_arr.len() == 0x800,
            e_arr.len() == 0x800,
        ensures
            r.wf(),
            r.mem().len() == 0x4000,
            forall|i: int| 0 <= i < 0x800 ==> r.mem()[i] == h_arr@[i],
            forall|i: int| 0 <= i < 0x800 ==> r.mem()[0x800 + i] == g_arr@[i],
            forall|i: int| 0 <= i < 0x800 ==> r.mem()[0x1000 + i] == f_arr@[i],
            forall|i: int| 0 <= i < 0x800 ==> r.mem()[0x1800 + i] == e_arr@[i],
            forall|i: int| 0x2000 <= i < 0x4000 ==> r.mem()[i] == 0,
    {
        Self {
            read_only_h: ReadOnly::init(0x0000, h_arr),
            read_only_g: ReadOnly::init(0x0800, g_arr),
            read_only_f: ReadOnly::init(0x1000, f_arr),
            read_only_e: ReadOnly::init(0x1800, e_arr),
            work_ram: Work::init(0x2000, zeroed(0x400)),
            video_ram: Video::init(0x2400, zeroed(0x1c00)),
        }
    }

    /// Read the byte at an address the board serves.
    pub fn get_mem(&self, addr: u16) -> (r: u8)
        requires
            self.wf(),
            addr < 0x4000,
        ensures
            r == self.mem()[addr as int],
    {
        if addr <= 0x07ff {
            self.read_only_h.get(addr)
        } else if addr <= 0x0fff {
            self.read_only_g.get(addr)
        } else if addr <= 0x17ff {
            self.read_only_f.get(addr)
        } else if addr <= 0x1fff {
            self.read_only_e.get(addr)
        } else if addr <= 0x23ff {
            self.work_ram.get(addr)
        } else {
            self.video_ram.get(addr)
        }
    }

    /// Write the byte at an address the board serves; writes into the ROM
    /// banks are silently ignored.
    pub fn set_mem(&mut self, addr: u16, val: u8)
        requires
            old(self).wf(),
            addr < 0x4000,
        ensures
            final(self).wf(),
            final(self).mem() == (if addr >= 0x2000 {
                old(self).mem().update(addr as int, val)
            } else {
                old(self).mem()
            }),
    {
        if addr <= 0x07ff {
            self.read_only_h.set(addr, val);
        } else if addr <= 0x0fff {
            self.read_only_g.set(addr, val);
        } else if addr <= 0x17ff {
            self.read_only_f.set(addr, val);
        } else if addr <= 0x1fff {
            self.read_only_e.set(addr, val);
        } else if addr <= 0x23ff {
            self.work_ram.set(addr, val);
        } else {
            self.video_ram.set(addr, val);
        }
        proof {
            if addr >= 0x2000 {
                assert(self.mem() =~= old(self).mem().update(addr as int, val));
            } else {
                assert(self.mem() =~= old(self).mem());
            }
        }
    }
}

} // verus!
