//! Small numeric helpers.

use vstd::prelude::*;

use crate::machine::pair16;

verus! {

/// 16-bit composition helpers.
pub struct U16Util {}

impl U16Util {
    /// Compose a word from its little-endian bytes: `f` is the low byte,
    /// `s` the high byte.
    pub fn from_le_bytes(f: u8, s: u8) -> (r: u16)
        ensures
            r == pair16(s, f),
    {
        (s as u16) * 256 + (f as u16)
    }
}

/// A zero-filled buffer of the given length.
pub(crate) fn zeroed(n: usize) -> (r: Vec<u8>)
    ensures
        r@.len() == n,
        forall|i: int| 0 <= i < n ==> r@[i] == 0,
{
    let mut out: Vec<u8> = Vec::new();
    let mut i: usize = 0;
    while i < n
        invariant
            i <= n,
            out@.len() == i,
            forall|j: int| 0 <= j < i ==> out@[j] == 0,
        decreases n - i,
    {
        out.push(0);
        i = i + 1;
    }
    out
}

} // verus!
