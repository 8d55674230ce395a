//! The arcade board's address map: four 2 KiB ROM banks at 0x0000–0x1FFF,
//! 1 KiB of work memory at 0x2000–0x23FF, 7 KiB of video memory at
//! 0x2400–0x3FFF, and a writable region covering 0x4000–0xFFFF.

use vstd::prelude::*;

use crate::machine::wrap16;
use crate::memory::{bus_write8, AddressBus, Memory, ReadOnly, Video, Work};
use crate::util::zeroed;

verus! {

/// The board's bus: an ordered, non-overlapping, exhaustive list of
/// regions covering every address.
pub struct InvadersAddressBus {
    read_only_h: ReadOnly,
    read_only_g: ReadOnly,
    read_only_f: ReadOnly,
    read_only_e: ReadOnly,
    work_ram: Work,
    video_ram: Video,
    work_ram2: Work,
}

impl AddressBus for InvadersAddressBus {
    closed spec fn mem(&self) -> Seq<u8> {
        Seq::new(0x10000, |i: int|
            if i < 0x800 {
                self.read_only_h.contents()[i]
            } else if i < 0x1000 {
                self.read_only_g.contents()[i - 0x800]
            } else if i < 0x1800 {
                self.read_only_f.contents()[i - 0x1000]
            } else if i < 0x2000 {
                self.read_only_e.contents()[i - 0x1800]
            } else if i < 0x2400 {
                self.work_ram.contents()[i - 0x2000]
            } else if i < 0x4000 {
                self.video_ram.contents()[i - 0x2400]
            } else {
                self.work_ram2.contents()[i - 0x4000]
            })
    }

    closed spec fn wr_set(&self) -> Set<u16> {
        Set::new(|a: u16| a >= 0x2000)
    }

    closed spec fn wf(&self) -> bool {
        &&& self.read_only_h.base() == 0x0000
        &&& self.read_only_h.contents().len() == 0x800
        &&& !self.read_only_h.stores()
        &&& self.read_only_g.base() == 0x0800
        &&& self.read_only_g.contents().len() == 0x800
        &&& !self.read_only_g.stores()
        &&& self.read_only_f.base() == 0x1000
        &&& self.read_only_f.contents().len() == 0x800
        &&& !self.read_only_f.stores()
        &&& self.read_only_e.base() == 0x1800
        &&& self.read_only_e.contents().len() == 0x800
        &&& !self.read_only_e.stores()
        &&& self.work_ram.base() == 0x2000
        &&& self.work_ram.contents().len() == 0x400
        &&& self.work_ram.stores()
        &&& self.video_ram.base() == 0x2400
        &&& self.video_ram.contents().len() == 0x1c00
        &&& self.video_ram.stores()
        &&& self.work_ram2.base() == 0x4000
        &&& self.work_ram2.contents().len() == 0xc000
        &&& self.work_ram2.stores()
    }

    proof fn wf_mem_len(&self) {
    }

    fn get_mem(&self, addr: u16) -> (r: u8) {
        if addr <= 0x07ff {
            self.read_only_h.get(addr)
        } else if addr <= 0x0fff {
            self.read_only_g.get(addr)
        } else if addr <= 0x17ff {
            self.read_only_f.get(addr)
        } else if addr <= 0x1fff {
            self.read_only_e.get(addr)
        } else if addr <= 0x23ff {
            self.work_ram.get(addr)
        } else if addr <= 0x3fff {
            self.video_ram.get(addr)
        } else {
            self.work_ram2.get(addr)
        }
    }

    fn set_mem(&mut self, addr: u16, val: u8) {
        if addr <= 0x07ff {
            self.read_only_h.set(addr, val);
        } else if addr <= 0x0fff {
            self.read_only_g.set(addr, val);
        } else if addr <= 0x17ff {
            self.read_only_f.set(addr, val);
        } else if addr <= 0x1fff {
            self.read_only_e.set(addr, val);
        } else if addr <= 0x23ff {
            self.work_ram.set(addr, val);
        } else if addr <= 0x3fff {
            self.video_ram.set(addr, val);
        } else {
            self.work_ram2.set(addr, val);
        }
        proof {
            if addr >= 0x2000 {
                assert(self.mem() =~= bus_write8(old(self).mem(), old(self).wr_set(), addr, val));
            } else {
                assert(self.mem() =~= old(self).mem());
            }
        }
    }
}

impl InvadersAddressBus {
    /// Assemble the board from its four loaded 2 KiB ROM banks and the
    /// initial video contents; work memory starts zeroed.
    pub fn new(
        h_arr: Vec<u8>,
        g_arr: Vec<u8>,
        f_arr: Vec<u8>,
        e_arr: Vec<u8>,
        video_arr: Vec<u8>,
    ) -> (r: Self)
        requires
            h_arr.len() == 0x800,
            g_arr.len() == 0x800,
            f_arr.len() == 0x800,
            e_arr.len() == 0x800,
            video_arr.len() == 0x1c00,
        ensures
            r.wf(),
            r.mem().len() == 0x10000,
            forall|a: u16| r.wr_set().contains(a) == (a >= 0x2000),
            forall|i: int| 0 <= i < 0x800 ==> r.mem()[i] == h_arr@[i],
            forall|i: int| 0 <= i < 0x800 ==> r.mem()[0x800 + i] == g_arr@[i],
            forall|i: int| 0 <= i < 0x800 ==> r.mem()[0x1000 + i] == f_arr@[i],
            forall|i: int| 0 <= i < 0x800 ==> r.mem()[0x1800 + i] == e_arr@[i],
            forall|i: int| 0 <= i < 0x1c00 ==> r.mem()[0x2400 + i] == video_arr@[i],
            forall|i: int| 0x2000 <= i < 0x2400 ==> r.mem()[i] == 0,
            forall|i: int| 0x4000 <= i < 0x10000 ==> r.mem()[i] == 0,
    {
        Self {
            read_only_h: ReadOnly::init(0x0000, h_arr),
            read_only_g: ReadOnly::init(0x0800, g_arr),
            read_only_f: ReadOnly::init(0x1000, f_arr),
            read_only_e: ReadOnly::init(0x1800, e_arr),
            work_ram: Work::init(0x2000, zeroed(0x400)),
            video_ram: Video::init(0x2400, video_arr),
            work_ram2: Work::init(0x4000, zeroed(0xc000)),
        }
    }

    /// A copy of the video region's current contents, for the renderer.
    /// The engine stays the only writer; the renderer works from this
    /// per-frame snapshot.
    pub fn video_snapshot(&self) -> (r: Vec<u8>)
        requires
            self.wf(),
        ensures
            r@.len() == 0x1c00,
            forall|i: int| 0 <= i < 0x1c00 ==> r@[i] == self.mem()[0x2400 + i],
    {
        self.video_ram.snapshot()
    }
}

} // verus!
