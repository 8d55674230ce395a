//! The register file of the Intel 8080: seven 8-bit general registers, the
//! 16-bit program counter and stack pointer, and the five condition flags.
//! Register pairs are views: a pair reads as high register times 256 plus low
//! register, and a pair assignment splits the value back into the two
//! registers.

use vstd::prelude::*;

use crate::machine::{flag_ac_of, flag_cy_of, flag_p_of, flag_s_of, flag_z_of, hi8, lo8,
    pack_flags, pair16};

verus! {

/// The processor's register and flag state.
pub struct Register {
    pub a: u8,
    pub b: u8,
    pub c: u8,
    pub d: u8,
    pub e: u8,
    pub h: u8,
    pub l: u8,
    /// Address of the next opcode to fetch.
    pub pc: u16,
    /// Address of the most recently pushed word.
    pub sp: u16,
    /// Zero flag.
    pub flag_z: bool,
    /// Sign flag: bit 7 of the last flag-setting result.
    pub flag_s: bool,
    /// Parity flag: set when the result has an even bit count.
    pub flag_p: bool,
    /// Carry flag.
    pub flag_cy: bool,
    /// Auxiliary-carry flag: carry or borrow across the nibble boundary.
    pub flag_ac: bool,
}

impl Register {
    /// The packed flag byte this register file encodes to.
    pub open spec fn spec_flags(self) -> u8 {
        pack_flags(self.flag_s, self.flag_z, self.flag_ac, self.flag_p, self.flag_cy)
    }

    /// The accumulator+flags pair, as pushed by PUSH PSW.
    pub fn get_af(&self) -> (r: u16)
        ensures
            r == pair16(self.a, self.spec_flags()),
    {
        (self.a as u16) * 256 + (self.get_flags() as u16)
    }

    /// The BC pair.
    pub fn get_bc(&self) -> (r: u16)
        ensures
            r == pair16(self.b, self.c),
    {
        (self.b as u16) * 256 + (self.c as u16)
    }

    /// The DE pair.
    pub fn get_de(&self) -> (r: u16)
        ensures
            r == pair16(self.d, self.e),
    {
        (self.d as u16) * 256 + (self.e as u16)
    }

    /// The HL pair.
    pub fn get_hl(&self) -> (r: u16)
        ensures
            r == pair16(self.h, self.l),
    {
        (self.h as u16) * 256 + (self.l as u16)
    }

    /// Assign the BC pair: B takes the high byte, C the low byte.
    pub fn set_bc(&mut self, value: u16)
        ensures
            *final(self) == (Register { b: hi8(value), c: lo8(value), ..*old(self) }),
    {
        self.b = (value / 256) as u8;
        self.c = (value % 256) as u8;
    }

    /// Assign the DE pair: D takes the high byte, E the low byte.
    pub fn set_de(&mut self, value: u16)
        ensures
            *final(self) == (Register { d: hi8(value), e: lo8(value), ..*old(self) }),
    {
        self.d = (value / 256) as u8;
        self.e = (value % 256) as u8;
    }

    /// Assign the HL pair: H takes the high byte, L the low byte.
    pub fn set_hl(&mut self, value: u16)
        ensures
            *final(self) == (Register { h: hi8(value), l: lo8(value), ..*old(self) }),
    {
        self.h = (value / 256) as u8;
        self.l = (value % 256) as u8;
    }

    /// The packed flag byte: S at bit 7, Z at bit 6, AC at bit 4, P at bit 2,
    /// CY at bit 0, bit 1 pinned to 1, bits 3 and 5 pinned to 0.
    pub fn get_flags(&self) -> (r: u8)
        ensures
            r == self.spec_flags(),
    {
        let mut bits: u8 = 2;
        if self.flag_z {
            bits = bits + 64;
        }
        if self.flag_s {
            bits = bits + 128;
        }
        if self.flag_p {
            bits = bits + 4;
        }
        if self.flag_cy {
            bits = bits + 1;
        }
        if self.flag_ac {
            bits = bits + 16;
        }
        bits
    }

    /// Load the five flags from a packed flag byte; the pinned bits of the
    /// byte are ignored, so any byte decodes to a valid flag state.
    pub fn set_flags(&mut self, flags: u8)
        ensures
            *final(self) == (Register {
                flag_s: flag_s_of(flags),
                flag_z: flag_z_of(flags),
                flag_ac: flag_ac_of(flags),
                flag_p: flag_p_of(flags),
                flag_cy: flag_cy_of(flags),
                ..*old(self)
            }),
    {
        self.flag_z = flags / 64 % 2 == 1;
        self.flag_s = flags / 128 % 2 == 1;
        self.flag_p = flags / 4 % 2 == 1;
        self.flag_cy = flags % 2 == 1;
        self.flag_ac = flags / 16 % 2 == 1;
    }
}

} // verus!
