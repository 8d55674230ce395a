//! The library's stated laws, proved once and for all over the
//! instruction semantics: the flag equations of every flag-setting
//! operation, the push/pop round trips, and the call/return round trip.

use vstd::prelude::*;

use crate::isa::{adv, alu_spec, daa_spec, dcr_spec, inr_spec, pop_val, push16, rp_val, set_rp,
    step_spec};
use crate::machine::{flag_ac_of, flag_cy_of, flag_p_of, flag_s_of, flag_z_of, hi8, lo8,
    pack_flags, pair16, parity_even, read8, wrap8, wrap16, Machine};

verus! {

/// Bit 7 of a byte is set exactly when the byte is at least 0x80.
proof fn lemma_bit7(v: u8)
    by (bit_vector)
    ensures
        ((v & 0x80) != 0) == (v >= 128),
{
}

/// Zero/Sign/Parity law for the eight accumulator operation groups
/// (ADD, ADC, SUB, SBB, ANA, XRA, ORA, CMP), immediate forms included:
/// Zero holds exactly of result 0, Sign exactly when bit 7 of the result
/// is set, Parity exactly when the result's bit count is even — for all
/// 256 values of the result. The result is the new accumulator, except
/// for CMP, which computes the difference for its flags only.
pub proof fn lemma_alu_flags(m: Machine, kind: int, v: u8)
    requires
        0 <= kind < 8,
    ensures
        ({
            let m2 = alu_spec(m, kind, v);
            let r = if kind == 7 { wrap8(m.a - v) } else { m2.a };
            &&& m2.z == (r == 0)
            &&& m2.s == ((r & 0x80) != 0)
            &&& m2.p == parity_even(r)
        }),
{
    let m2 = alu_spec(m, kind, v);
    let r = if kind == 7 { wrap8(m.a - v) } else { m2.a };
    lemma_bit7(r);
}

/// Zero/Sign/Parity law for the 8-bit increment.
pub proof fn lemma_inr_flags(m: Machine, x: u8)
    ensures
        ({
            let m2 = inr_spec(m, x);
            let r = wrap8(x + 1);
            &&& m2.z == (r == 0)
            &&& m2.s == ((r & 0x80) != 0)
            &&& m2.p == parity_even(r)
        }),
{
    lemma_bit7(wrap8(x + 1));
}

/// Zero/Sign/Parity law for the 8-bit decrement.
pub proof fn lemma_dcr_flags(m: Machine, x: u8)
    ensures
        ({
            let m2 = dcr_spec(m, x);
            let r = wrap8(x - 1);
            &&& m2.z == (r == 0)
            &&& m2.s == ((r & 0x80) != 0)
            &&& m2.p == parity_even(r)
        }),
{
    lemma_bit7(wrap8(x - 1));
}

/// Zero/Sign/Parity law for the decimal adjust.
pub proof fn lemma_daa_flags(m: Machine)
    ensures
        ({
            let m2 = daa_spec(m);
            &&& m2.z == (m2.a == 0)
            &&& m2.s == ((m2.a & 0x80) != 0)
            &&& m2.p == parity_even(m2.a)
        }),
{
    lemma_bit7(daa_spec(m).a);
}

/// The packed flag byte decodes back to exactly the five flags it was
/// built from, whatever their values.
pub proof fn lemma_pack_flags_roundtrip(s: bool, z: bool, ac: bool, p: bool, cy: bool)
    ensures
        flag_s_of(pack_flags(s, z, ac, p, cy)) == s,
        flag_z_of(pack_flags(s, z, ac, p, cy)) == z,
        flag_ac_of(pack_flags(s, z, ac, p, cy)) == ac,
        flag_p_of(pack_flags(s, z, ac, p, cy)) == p,
        flag_cy_of(pack_flags(s, z, ac, p, cy)) == cy,
{
}

/// A 16-bit value splits into its bytes and reassembles exactly.
proof fn lemma_pair_split(v: u16)
    ensures
        pair16(hi8(v), lo8(v)) == v,
{
}

/// Composing two bytes and taking the halves back is the identity.
proof fn lemma_pair_compose(h: u8, l: u8)
    ensures
        hi8(pair16(h, l)) == h,
        lo8(pair16(h, l)) == l,
{
}

/// Adding to an already-wrapped value wraps like adding to the raw value.
proof fn lemma_wrap16_add(x: int, y: int)
    ensures
        wrap16(wrap16(x) + y) == wrap16(x + y),
{
    let n = 0x10000int;
    vstd::arithmetic::div_mod::lemma_fundamental_div_mod(x, n);
    vstd::arithmetic::div_mod::lemma_mod_multiples_vanish(-(x / n), x + y, n);
}

/// What a push leaves behind: the stack pointer moved down by 2, the
/// pushed word readable at the top of the stack, and every other byte of
/// memory untouched — provided the two stack bytes are writable.
proof fn lemma_push_then_read(m: Machine, v: u16)
    requires
        m.mem.len() == 0x10000,
        m.wr.contains(wrap16(m.sp - 2)),
        m.wr.contains(wrap16(m.sp - 1)),
    ensures
        ({
            let m1 = push16(m, v);
            &&& m1.sp == wrap16(m.sp - 2)
            &&& wrap16(m1.sp + 2) == m.sp
            &&& pop_val(m1) == v
            &&& m1.mem.len() == 0x10000
            &&& forall|a: u16|
                a != wrap16(m.sp - 2) && a != wrap16(m.sp - 1) ==> read8(m1, a) == read8(m, a)
        }),
{
    let sp2 = wrap16(m.sp - 2);
    lemma_wrap16_add(m.sp - 2, 1);
    assert(wrap16(sp2 + 1) == wrap16(m.sp - 1));
    lemma_wrap16_add(m.sp - 2, 2);
    assert(wrap16(sp2 + 2) == wrap16(m.sp as int));
    assert(wrap16(m.sp as int) == m.sp);
    assert(sp2 != wrap16(m.sp - 1));
    lemma_pair_compose(hi8(v), lo8(v));
    lemma_pair_split(v);
}

/// Push then pop of a register pair (BC, DE or HL) restores the exact
/// pair value, the stack pointer and the program-counter flow: after the
/// two instructions the pair and `sp` are as before and `pc` stands past
/// both one-byte instructions.
///
/// The two stack bytes must be writable (a stack in ROM keeps nothing)
/// and must not overlap the address of the pop instruction.
pub proof fn lemma_push_pop_roundtrip(m: Machine, rp: int)
    requires
        m.mem.len() == 0x10000,
        0 <= rp < 3,
        m.wr.contains(wrap16(m.sp - 2)),
        m.wr.contains(wrap16(m.sp - 1)),
        wrap16(m.sp - 2) != wrap16(m.pc + 1),
        wrap16(m.sp - 1) != wrap16(m.pc + 1),
        read8(m, m.pc) == 0xc5 + 16 * rp,
        read8(m, wrap16(m.pc + 1)) == 0xc1 + 16 * rp,
    ensures
        ({
            let m2 = step_spec(step_spec(m, 0), 0);
            &&& rp_val(m2, rp) == rp_val(m, rp)
            &&& m2.sp == m.sp
            &&& m2.pc == wrap16(m.pc + 2)
        }),
{
    let v = rp_val(m, rp);
    let m_f = adv(m, 1);
    lemma_push_then_read(m_f, v);
    let m1 = step_spec(m, 0);
    assert(m1 == (Machine { pc: m_f.pc, ..push16(m_f, v) }));
    lemma_wrap16_add(m.pc + 1, 1);
    assert(read8(m1, m1.pc) == 0xc1 + 16 * rp);
    let m1_f = adv(m1, 1);
    lemma_pair_compose(hi8(v), lo8(v));
    lemma_pair_split(v);
    let m2 = step_spec(m1, 0);
    assert(m2 == set_rp(crate::isa::pop_adv(m1_f), rp, pop_val(m1_f)));
}

/// Push then pop of the accumulator+flags pair restores the accumulator
/// and every flag bit exactly, through the fixed-bit packing convention.
///
/// The two stack bytes must be writable and must not overlap the address
/// of the pop instruction.
pub proof fn lemma_push_pop_psw(m: Machine)
    requires
        m.mem.len() == 0x10000,
        m.wr.contains(wrap16(m.sp - 2)),
        m.wr.contains(wrap16(m.sp - 1)),
        wrap16(m.sp - 2) != wrap16(m.pc + 1),
        wrap16(m.sp - 1) != wrap16(m.pc + 1),
        read8(m, m.pc) == 0xf5,
        read8(m, wrap16(m.pc + 1)) == 0xf1,
    ensures
        ({
            let m2 = step_spec(step_spec(m, 0), 0);
            &&& m2.a == m.a
            &&& m2.z == m.z
            &&& m2.s == m.s
            &&& m2.p == m.p
            &&& m2.cy == m.cy
            &&& m2.ac == m.ac
            &&& m2.sp == m.sp
            &&& m2.pc == wrap16(m.pc + 2)
        }),
{
    let m_f = adv(m, 1);
    let v = m_f.af();
    lemma_push_then_read(m_f, v);
    let m1 = step_spec(m, 0);
    assert(m1 == (Machine { pc: m_f.pc, ..push16(m_f, v) }));
    lemma_wrap16_add(m.pc + 1, 1);
    assert(read8(m1, m1.pc) == 0xf1);
    lemma_pair_compose(m.a, pack_flags(m.s, m.z, m.ac, m.p, m.cy));
    lemma_pack_flags_roundtrip(m.s, m.z, m.ac, m.p, m.cy);
}

/// Call then return restores `pc` to exactly the address following the
/// three-byte call, and `sp` to its value before the call — for arbitrary
/// starting `pc` and call target.
///
/// The two stack bytes must be writable and must not overlap the byte at
/// the call target, where the return instruction stands.
pub proof fn lemma_call_ret_roundtrip(m: Machine, target: u16)
    requires
        m.mem.len() == 0x10000,
        m.wr.contains(wrap16(m.sp - 2)),
        m.wr.contains(wrap16(m.sp - 1)),
        wrap16(m.sp - 2) != target,
        wrap16(m.sp - 1) != target,
        read8(m, m.pc) == 0xcd,
        crate::machine::read16(m, wrap16(m.pc + 1)) == target,
        read8(m, target) == 0xc9,
    ensures
        ({
            let m2 = step_spec(step_spec(m, 0), 0);
            &&& m2.pc == wrap16(m.pc + 3)
            &&& m2.sp == m.sp
        }),
{
    let m_f = adv(m, 1);
    let m_fa = adv(m_f, 2);
    lemma_wrap16_add(m.pc + 1, 2);
    assert(m_fa.pc == wrap16(m.pc + 3));
    let ret_addr = m_fa.pc;
    lemma_push_then_read(m_fa, ret_addr);
    let m1 = step_spec(m, 0);
    assert(m1 == (Machine { pc: target, ..push16(m_fa, ret_addr) }));
    assert(read8(m1, target) == 0xc9);
    lemma_pair_compose(hi8(ret_addr), lo8(ret_addr));
    lemma_pair_split(ret_addr);
}

} // verus!
