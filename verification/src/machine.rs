//! The mathematical model of the emulated machine.
//!
//! A [`Machine`] value is a ghost snapshot of everything an instruction can
//! observe or change: the seven 8-bit registers, the 16-bit program counter
//! and stack pointer, the five condition flags, the interrupt-enable and
//! halted markers, the 64 KiB byte-addressable memory, and the set of
//! addresses whose writes take effect (writes to read-only regions are
//! silently ignored by the bus).

use vstd::prelude::*;

verus! {

/// Ghost snapshot of the processor and its address space.
#[verifier::ext_equal]
pub ghost struct Machine {
    pub a: u8,
    pub b: u8,
    pub c: u8,
    pub d: u8,
    pub e: u8,
    pub h: u8,
    pub l: u8,
    /// Address of the next opcode to fetch.
    pub pc: u16,
    /// Address of the most recently pushed word; the stack grows downward.
    pub sp: u16,
    /// Zero flag: the last flag-setting result was 0.
    pub z: bool,
    /// Sign flag: bit 7 of the last flag-setting result.
    pub s: bool,
    /// Parity flag: the last flag-setting result has an even bit count.
    pub p: bool,
    /// Carry flag.
    pub cy: bool,
    /// Auxiliary-carry flag: carry or borrow across the nibble boundary.
    pub ac: bool,
    /// Interrupt-enable marker, toggled only by EI and DI.
    pub inte: bool,
    /// Set when HLT executes; the driving loop observes it.
    pub halted: bool,
    /// The full 16-bit address space, one byte per address.
    pub mem: Seq<u8>,
    /// Addresses where a write stores the byte; elsewhere writes are ignored.
    pub wr: Set<u16>,
}

/// 8-bit wraparound: fixed-width arithmetic discards the carry out of bit 7.
pub open spec fn wrap8(x: int) -> u8 {
    (x % 256) as u8
}

/// 16-bit wraparound.
pub open spec fn wrap16(x: int) -> u16 {
    (x % 0x10000) as u16
}

/// High byte of a 16-bit value.
pub open spec fn hi8(v: u16) -> u8 {
    (v / 256) as u8
}

/// Low byte of a 16-bit value.
pub open spec fn lo8(v: u16) -> u8 {
    (v % 256) as u8
}

/// Register-pair composition: high register in the upper 8 bits.
pub open spec fn pair16(hi: u8, lo: u8) -> u16 {
    (hi * 256 + lo) as u16
}

/// Number of set bits of a byte.
pub open spec fn popcount(v: u8) -> int
    decreases v,
{
    if v == 0 {
        0
    } else {
        popcount(v / 2) + (v % 2)
    }
}

/// Parity flag value for a result byte: true iff the bit count is even.
pub open spec fn parity_even(v: u8) -> bool {
    popcount(v) % 2 == 0
}

/// Compute the parity flag of a result byte.
pub fn parity_of(v: u8) -> (r: bool)
    ensures
        r == parity_even(v),
{
    let mut x = v;
    let mut even = true;
    while x > 0
        invariant
            parity_even(v) == (even == parity_even(x)),
        decreases x,
    {
        proof {
            assert(popcount(x) == popcount(x / 2) + x % 2);
        }
        if x % 2 == 1 {
            even = !even;
        }
        x = x / 2;
    }
    even
}

/// The packed flag byte: S at bit 7, Z at bit 6, AC at bit 4, P at bit 2,
/// CY at bit 0; bit 1 is pinned to 1 and bits 3 and 5 to 0, so that pushing
/// and popping the accumulator+flags pair round-trips exactly.
pub open spec fn pack_flags(s: bool, z: bool, ac: bool, p: bool, cy: bool) -> u8 {
    ((if s { 128int } else { 0int }) + (if z { 64int } else { 0int })
        + (if ac { 16int } else { 0int }) + (if p { 4int } else { 0int }) + 2int
        + (if cy { 1int } else { 0int })) as u8
}

/// The five flags encoded in a packed flag byte (the pinned bits are ignored).
pub open spec fn flag_s_of(v: u8) -> bool {
    v / 128 % 2 == 1
}

pub open spec fn flag_z_of(v: u8) -> bool {
    v / 64 % 2 == 1
}

pub open spec fn flag_ac_of(v: u8) -> bool {
    v / 16 % 2 == 1
}

pub open spec fn flag_p_of(v: u8) -> bool {
    v / 4 % 2 == 1
}

pub open spec fn flag_cy_of(v: u8) -> bool {
    v % 2 == 1
}

impl Machine {
    /// The BC pair.
    pub open spec fn bc(self) -> u16 {
        pair16(self.b, self.c)
    }

    /// The DE pair.
    pub open spec fn de(self) -> u16 {
        pair16(self.d, self.e)
    }

    /// The HL pair.
    pub open spec fn hl(self) -> u16 {
        pair16(self.h, self.l)
    }

    /// The accumulator+flags pair, accumulator in the upper 8 bits.
    pub open spec fn af(self) -> u16 {
        pair16(self.a, pack_flags(self.s, self.z, self.ac, self.p, self.cy))
    }
}

/// Byte read: the bus is a total function over the 16-bit address space.
pub open spec fn read8(m: Machine, addr: u16) -> u8 {
    m.mem[addr as int]
}

/// Byte write: stores into writable regions, is ignored elsewhere.
pub open spec fn write8(m: Machine, addr: u16, v: u8) -> Machine {
    if m.wr.contains(addr) {
        Machine { mem: m.mem.update(addr as int, v), ..m }
    } else {
        m
    }
}

/// Word read: two byte reads, little-endian, the address wrapping at 0xFFFF.
pub open spec fn read16(m: Machine, addr: u16) -> u16 {
    pair16(read8(m, wrap16(addr + 1)), read8(m, addr))
}

/// Word write: two byte writes, little-endian.
pub open spec fn write16(m: Machine, addr: u16, v: u16) -> Machine {
    write8(write8(m, addr, lo8(v)), wrap16(addr + 1), hi8(v))
}

} // verus!
