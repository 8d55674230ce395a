//! The byte-capability contract of a single memory-mapped region.

use vstd::prelude::*;

verus! {

/// A contiguous region of the address space with a base offset.
///
/// `get` returns the stored byte at `addr - base`; `set` either stores
/// (when `stores()` holds, as for work and video memory) or is silently
/// ignored (read-only memory).
pub trait Memory: Sized {
    /// First address the region serves.
    spec fn base(&self) -> u16;

    /// The region's backing bytes.
    spec fn contents(&self) -> Seq<u8>;

    /// Whether writes to this region take effect.
    spec fn stores(&self) -> bool;

    /// Read the byte at an in-range address.
    fn get(&self, addr: u16) -> (r: u8)
        requires
            self.base() <= addr < self.base() + self.contents().len(),
        ensures
            r == self.contents()[addr - self.base()],
    ;

    /// Write the byte at an in-range address; ignored by read-only regions.
    fn set(&mut self, addr: u16, val: u8)
        requires
            old(self).base() <= addr < old(self).base() + old(self).contents().len(),
        ensures
            final(self).base() == old(self).base(),
            final(self).stores() == old(self).stores(),
            final(self).contents() == (if old(self).stores() {
                old(self).contents().update(addr - old(self).base(), val)
            } else {
                old(self).contents()
            }),
    ;
}

} // verus!
