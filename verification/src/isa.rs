//! Instruction semantics of the 8080, as a total function over [`Machine`]
//! snapshots.
//!
//! [`step_spec`] gives the exact effect of executing the opcode at `pc` —
//! including the historical behaviour of the reserved opcode slots — and
//! [`cycles_spec`] its cycle cost. The execution engine is proved to
//! implement these functions arm by arm.
//!
//! Operand slots follow the 8080 encoding: 8-bit slot indices are
//! 0 B, 1 C, 2 D, 3 E, 4 H, 5 L, 6 the memory cell addressed by HL, 7 A;
//! register-pair indices are 0 BC, 1 DE, 2 HL, 3 SP; condition indices are
//! 0 NZ, 1 Z, 2 NC, 3 C, 4 PO, 5 PE, 6 P, 7 M.

use vstd::prelude::*;

use crate::machine::{flag_ac_of, flag_cy_of, flag_p_of, flag_s_of, flag_z_of, hi8, lo8,
    parity_even, read8, read16, wrap8, wrap16, write8, write16, Machine};

verus! {

/// Advance the program counter by `k` bytes, wrapping at 0xFFFF.
pub open spec fn adv(m: Machine, k: int) -> Machine {
    Machine { pc: wrap16(m.pc + k), ..m }
}

/// The immediate byte following the current instruction position.
pub open spec fn imm8(m: Machine) -> u8 {
    read8(m, m.pc)
}

/// The little-endian immediate word following the current instruction position.
pub open spec fn imm16(m: Machine) -> u16 {
    read16(m, m.pc)
}

/// Value of 8-bit operand slot `idx`.
pub open spec fn src_val(m: Machine, idx: int) -> u8 {
    if idx == 0 {
        m.b
    } else if idx == 1 {
        m.c
    } else if idx == 2 {
        m.d
    } else if idx == 3 {
        m.e
    } else if idx == 4 {
        m.h
    } else if idx == 5 {
        m.l
    } else if idx == 6 {
        read8(m, m.hl())
    } else {
        m.a
    }
}

/// Store `v` into 8-bit operand slot `idx`; slot 6 is a memory write through
/// the bus, so it is ignored when HL addresses a read-only region.
pub open spec fn set_dst(m: Machine, idx: int, v: u8) -> Machine {
    if idx == 0 {
        Machine { b: v, ..m }
    } else if idx == 1 {
        Machine { c: v, ..m }
    } else if idx == 2 {
        Machine { d: v, ..m }
    } else if idx == 3 {
        Machine { e: v, ..m }
    } else if idx == 4 {
        Machine { h: v, ..m }
    } else if idx == 5 {
        Machine { l: v, ..m }
    } else if idx == 6 {
        write8(m, m.hl(), v)
    } else {
        Machine { a: v, ..m }
    }
}

/// Value of register pair `rp`.
pub open spec fn rp_val(m: Machine, rp: int) -> u16 {
    if rp == 0 {
        m.bc()
    } else if rp == 1 {
        m.de()
    } else if rp == 2 {
        m.hl()
    } else {
        m.sp
    }
}

/// Assign register pair `rp`.
pub open spec fn set_rp(m: Machine, rp: int, v: u16) -> Machine {
    if rp == 0 {
        Machine { b: hi8(v), c: lo8(v), ..m }
    } else if rp == 1 {
        Machine { d: hi8(v), e: lo8(v), ..m }
    } else if rp == 2 {
        Machine { h: hi8(v), l: lo8(v), ..m }
    } else {
        Machine { sp: v, ..m }
    }
}

/// Whether branch condition `c` holds of the current flags.
pub open spec fn cond_holds(m: Machine, c: int) -> bool {
    if c == 0 {
        !m.z
    } else if c == 1 {
        m.z
    } else if c == 2 {
        !m.cy
    } else if c == 3 {
        m.cy
    } else if c == 4 {
        !m.p
    } else if c == 5 {
        m.p
    } else if c == 6 {
        !m.s
    } else {
        m.s
    }
}

/// Set Zero, Sign and Parity from a result byte: Zero iff the result is 0,
/// Sign iff bit 7 is set, Parity iff the bit count is even.
pub open spec fn with_szp(m: Machine, r: u8) -> Machine {
    Machine { z: r == 0, s: r >= 0x80, p: parity_even(r), ..m }
}

/// Flag effect of an 8-bit increment of `x`: Carry untouched;
/// Auxiliary-Carry iff the low nibble of the pre-increment value was 0xF.
pub open spec fn inr_spec(m: Machine, x: u8) -> Machine {
    Machine { ac: x % 16 == 15, ..with_szp(m, wrap8(x + 1)) }
}

/// Flag effect of an 8-bit decrement of `x`: Carry untouched;
/// Auxiliary-Carry iff the low nibble of the pre-decrement value was 0,
/// that is, iff the decrement borrows out of the low nibble.
pub open spec fn dcr_spec(m: Machine, x: u8) -> Machine {
    Machine { ac: x % 16 == 0, ..with_szp(m, wrap8(x - 1)) }
}

/// ADD/ADC: `cin` is the incoming carry, 0 or 1. Carry is the carry out of
/// bit 7, Auxiliary-Carry the carry out of bit 3.
pub open spec fn add_spec(m: Machine, v: u8, cin: int) -> Machine {
    let r = wrap8(m.a + v + cin);
    Machine {
        a: r,
        cy: m.a + v + cin > 255,
        ac: m.a % 16 + v % 16 + cin > 15,
        ..with_szp(m, r)
    }
}

/// Flag effect of SUB/SBB/CMP: `bin` is the incoming borrow, 0 or 1.
/// Carry is set iff the minuend is smaller than subtrahend plus borrow.
/// The 8080 performs subtraction as two's-complement addition, and
/// Auxiliary-Carry records the carry out of bit 3 of that addition: it is
/// set iff the subtraction does *not* borrow out of the low nibble.
pub open spec fn sub_flags_spec(m: Machine, v: u8, bin: int) -> Machine {
    Machine {
        cy: m.a < v + bin,
        ac: m.a % 16 >= v % 16 + bin,
        ..with_szp(m, wrap8(m.a - v - bin))
    }
}

/// SUB/SBB: the flag effect of the subtraction, with the result stored.
pub open spec fn sub_spec(m: Machine, v: u8, bin: int) -> Machine {
    Machine { a: wrap8(m.a - v - bin), ..sub_flags_spec(m, v, bin) }
}

/// ANA: bitwise and. Carry cleared; Auxiliary-Carry takes bit 3 of the
/// bitwise and of the operands — a documented quirk of this instruction.
pub open spec fn ana_spec(m: Machine, v: u8) -> Machine {
    Machine { a: m.a & v, cy: false, ac: (m.a & v) & 8 != 0, ..with_szp(m, m.a & v) }
}

/// XRA: bitwise exclusive or. Carry and Auxiliary-Carry cleared.
pub open spec fn xra_spec(m: Machine, v: u8) -> Machine {
    Machine { a: m.a ^ v, cy: false, ac: false, ..with_szp(m, m.a ^ v) }
}

/// ORA: bitwise or. Carry and Auxiliary-Carry cleared.
pub open spec fn ora_spec(m: Machine, v: u8) -> Machine {
    Machine { a: m.a | v, cy: false, ac: false, ..with_szp(m, m.a | v) }
}

/// The eight accumulator operations, by group index:
/// 0 ADD, 1 ADC, 2 SUB, 3 SBB, 4 ANA, 5 XRA, 6 ORA, 7 CMP.
pub open spec fn alu_spec(m: Machine, kind: int, v: u8) -> Machine {
    if kind == 0 {
        add_spec(m, v, 0)
    } else if kind == 1 {
        add_spec(m, v, if m.cy { 1int } else { 0int })
    } else if kind == 2 {
        sub_spec(m, v, 0)
    } else if kind == 3 {
        sub_spec(m, v, if m.cy { 1int } else { 0int })
    } else if kind == 4 {
        ana_spec(m, v)
    } else if kind == 5 {
        xra_spec(m, v)
    } else if kind == 6 {
        ora_spec(m, v)
    } else {
        sub_flags_spec(m, v, 0)
    }
}

/// DAD: 16-bit add into HL; Carry set on overflow past 16 bits, no other
/// flag affected.
pub open spec fn dad_spec(m: Machine, v: u16) -> Machine {
    let r = wrap16(m.hl() + v);
    Machine { h: hi8(r), l: lo8(r), cy: m.hl() + v > 0xffff, ..m }
}

/// RLC: rotate left; the rotated-out bit 7 goes to both Carry and bit 0.
pub open spec fn rlc_spec(m: Machine) -> Machine {
    Machine { a: wrap8(m.a * 2 + m.a / 128), cy: m.a >= 128, ..m }
}

/// RRC: rotate right; the rotated-out bit 0 goes to both Carry and bit 7.
pub open spec fn rrc_spec(m: Machine) -> Machine {
    Machine { a: (m.a % 2 * 128 + m.a / 2) as u8, cy: m.a % 2 == 1, ..m }
}

/// RAL: rotate left through Carry; the prior Carry fills bit 0 and the
/// rotated-out bit 7 becomes the new Carry.
pub open spec fn ral_spec(m: Machine) -> Machine {
    Machine {
        a: wrap8(m.a * 2 + if m.cy { 1int } else { 0int }),
        cy: m.a >= 128,
        ..m
    }
}

/// RAR: rotate right through Carry.
pub open spec fn rar_spec(m: Machine) -> Machine {
    Machine {
        a: ((if m.cy { 128int } else { 0int }) + m.a / 2) as u8,
        cy: m.a % 2 == 1,
        ..m
    }
}

/// DAA: binary-coded-decimal adjust. Each nibble above 9 — or flagged as
/// having carried — is brought back into decimal range by adding 6 to it;
/// Auxiliary-Carry reports the low-nibble correction's carry, and Carry is
/// set (never cleared) when the high-nibble correction overflows.
pub open spec fn daa_spec(m: Machine) -> Machine {
    let lsb = m.a % 16;
    let low_adj = lsb > 9 || m.ac;
    let a1 = if low_adj { wrap8(m.a + 6) } else { m.a };
    let ac2 = low_adj && lsb + 6 > 15;
    let high_adj = m.cy || a1 / 16 > 9;
    let a2 = if high_adj { wrap8(a1 + 0x60) } else { a1 };
    let cy2 = m.cy || (high_adj && a1 + 0x60 > 255);
    Machine { a: a2, cy: cy2, ac: ac2, ..with_szp(m, a2) }
}

/// Push a word: the stack pointer is first decremented by 2, then the word
/// is written at the new stack pointer.
pub open spec fn push16(m: Machine, v: u16) -> Machine {
    Machine { sp: wrap16(m.sp - 2), ..write16(m, wrap16(m.sp - 2), v) }
}

/// The word at the top of the stack.
pub open spec fn pop_val(m: Machine) -> u16 {
    read16(m, m.sp)
}

/// Retire the word at the top of the stack: the stack pointer moves up by 2.
pub open spec fn pop_adv(m: Machine) -> Machine {
    Machine { sp: wrap16(m.sp + 2), ..m }
}

/// Return: pop an address into the program counter.
pub open spec fn ret_spec(m: Machine) -> Machine {
    Machine { pc: pop_val(m), ..pop_adv(m) }
}

/// Call `target`: the address of the next instruction is pushed, then the
/// program counter is redirected. `m` must already stand past the operand.
pub open spec fn call_spec(m: Machine, target: u16) -> Machine {
    Machine { pc: target, ..push16(m, m.pc) }
}

/// Opcodes 0x00–0x3F: loads, stores, increments, rotates, and the
/// reserved no-op slots.
pub open spec fn front_op(m: Machine, op: u8) -> Machine {
    let rp = op as int / 16;
    if op % 8 == 0 {
        m  // NOP, and the reserved slots 0x08/0x10/0x18/0x20/0x28/0x30/0x38
    } else if op % 16 == 1 {
        set_rp(adv(m, 2), rp, imm16(m))  // LXI
    } else if op % 16 == 9 {
        dad_spec(m, rp_val(m, rp))  // DAD
    } else if op % 16 == 2 {
        if op == 0x02 {
            write8(m, m.bc(), m.a)  // STAX B
        } else if op == 0x12 {
            write8(m, m.de(), m.a)  // STAX D
        } else if op == 0x22 {
            write16(adv(m, 2), imm16(m), m.hl())  // SHLD
        } else {
            write8(adv(m, 2), imm16(m), m.a)  // STA
        }
    } else if op % 16 == 10 {
        if op == 0x0a {
            Machine { a: read8(m, m.bc()), ..m }  // LDAX B
        } else if op == 0x1a {
            Machine { a: read8(m, m.de()), ..m }  // LDAX D
        } else if op == 0x2a {
            // LHLD
            Machine {
                l: read8(m, imm16(m)),
                h: read8(m, wrap16(imm16(m) + 1)),
                pc: wrap16(m.pc + 2),
                ..m
            }
        } else {
            Machine { a: read8(m, imm16(m)), pc: wrap16(m.pc + 2), ..m }  // LDA
        }
    } else if op % 16 == 3 {
        set_rp(m, rp, wrap16(rp_val(m, rp) + 1))  // INX
    } else if op % 16 == 11 {
        set_rp(m, rp, wrap16(rp_val(m, rp) - 1))  // DCX
    } else if op % 8 == 4 {
        set_dst(inr_spec(m, src_val(m, op as int / 8)), op as int / 8,
            wrap8(src_val(m, op as int / 8) + 1))  // INR
    } else if op % 8 == 5 {
        set_dst(dcr_spec(m, src_val(m, op as int / 8)), op as int / 8,
            wrap8(src_val(m, op as int / 8) - 1))  // DCR
    } else if op % 8 == 6 {
        set_dst(adv(m, 1), op as int / 8, imm8(m))  // MVI
    } else {
        if op == 0x07 {
            rlc_spec(m)
        } else if op == 0x0f {
            rrc_spec(m)
        } else if op == 0x17 {
            ral_spec(m)
        } else if op == 0x1f {
            rar_spec(m)
        } else if op == 0x27 {
            daa_spec(m)
        } else if op == 0x2f {
            Machine { a: !m.a, ..m }  // CMA
        } else if op == 0x37 {
            Machine { cy: true, ..m }  // STC
        } else {
            Machine { cy: !m.cy, ..m }  // CMC
        }
    }
}

/// Opcodes 0xC0–0xFF: stack, control flow, immediates, I/O ports, and the
/// reserved slots that historically alias RET and CALL.
pub open spec fn back_op(m: Machine, op: u8, io_in: u8) -> Machine {
    let c = (op as int - 0xc0) / 8;
    let rp = (op as int - 0xc0) / 16;
    if op % 8 == 0 {
        if cond_holds(m, c) { ret_spec(m) } else { m }  // conditional RET
    } else if op % 16 == 1 {
        // POP
        let v = pop_val(m);
        let m2 = pop_adv(m);
        if rp == 3 {
            // POP PSW: the flags load from the packed byte
            Machine {
                a: hi8(v),
                s: flag_s_of(lo8(v)),
                z: flag_z_of(lo8(v)),
                ac: flag_ac_of(lo8(v)),
                p: flag_p_of(lo8(v)),
                cy: flag_cy_of(lo8(v)),
                ..m2
            }
        } else {
            set_rp(m2, rp, v)
        }
    } else if op % 16 == 9 {
        if op == 0xc9 || op == 0xd9 {
            ret_spec(m)  // RET; 0xd9 is its historical alias
        } else if op == 0xe9 {
            Machine { pc: m.hl(), ..m }  // PCHL
        } else {
            Machine { sp: m.hl(), ..m }  // SPHL
        }
    } else if op % 8 == 2 {
        // conditional JMP: the operand is consumed either way
        if cond_holds(m, c) { Machine { pc: imm16(m), ..m } } else { adv(m, 2) }
    } else if op % 16 == 3 {
        if op == 0xc3 {
            Machine { pc: imm16(m), ..m }  // JMP
        } else if op == 0xd3 {
            adv(m, 1)  // OUT: the device effect is outside this model
        } else if op == 0xe3 {
            // XTHL: swap HL with the word at the top of the stack
            Machine {
                h: hi8(read16(m, m.sp)),
                l: lo8(read16(m, m.sp)),
                ..write16(m, m.sp, m.hl())
            }
        } else {
            Machine { inte: false, ..m }  // DI
        }
    } else if op % 16 == 11 {
        if op == 0xdb {
            Machine { a: io_in, ..adv(m, 1) }  // IN: the device supplies the byte
        } else if op == 0xeb {
            Machine { h: m.d, l: m.e, d: m.h, e: m.l, ..m }  // XCHG
        } else if op == 0xfb {
            Machine { inte: true, ..m }  // EI
        } else {
            m  // 0xcb: reserved slot, no-op
        }
    } else if op % 8 == 4 {
        // conditional CALL: the operand is consumed either way
        if cond_holds(m, c) { call_spec(adv(m, 2), imm16(m)) } else { adv(m, 2) }
    } else if op % 16 == 5 {
        if rp == 3 { push16(m, m.af()) } else { push16(m, rp_val(m, rp)) }  // PUSH
    } else if op % 16 == 13 {
        call_spec(adv(m, 2), imm16(m))  // CALL; 0xdd/0xed/0xfd are its aliases
    } else if op % 8 == 6 {
        alu_spec(adv(m, 1), c, imm8(m))  // ADI/ACI/SUI/SBI/ANI/XRI/ORI/CPI
    } else {
        call_spec(m, (c * 8) as u16)  // RST: call one of the eight fixed vectors
    }
}

/// The effect of one fetch-decode-execute step. `io_in` is the byte the
/// external I/O capability returns; it is consulted only by the IN opcode.
pub open spec fn step_spec(pre: Machine, io_in: u8) -> Machine {
    let op = read8(pre, pre.pc);
    let m = adv(pre, 1);
    if op < 0x40 {
        front_op(m, op)
    } else if op < 0x80 {
        if op == 0x76 {
            Machine { halted: true, ..m }  // HLT
        } else {
            set_dst(m, (op as int - 0x40) / 8, src_val(m, op as int % 8))  // MOV
        }
    } else if op < 0xc0 {
        alu_spec(m, (op as int - 0x80) / 8, src_val(m, op as int % 8))
    } else {
        back_op(m, op, io_in)
    }
}

/// The effect of delivering interrupt vector `vector`: when interrupts are
/// enabled, the equivalent of a call to the vector; otherwise no change.
pub open spec fn interrupt_spec(m: Machine, vector: u16) -> Machine {
    if m.inte { call_spec(m, vector) } else { m }
}

/// Cycle cost of the opcodes below 0x40.
pub open spec fn front_cycles(op: u8) -> u8 {
    if op % 8 == 0 {
        4
    } else if op % 16 == 1 || op % 16 == 9 {
        10  // LXI, DAD
    } else if op % 16 == 2 {
        if op == 0x22 { 16 } else if op == 0x32 { 13 } else { 7 }
    } else if op % 16 == 10 {
        if op == 0x2a { 16 } else if op == 0x3a { 13 } else { 7 }
    } else if op % 16 == 3 || op % 16 == 11 {
        5  // INX, DCX
    } else if op % 8 == 4 || op % 8 == 5 {
        if op as int / 8 == 6 { 10 } else { 5 }  // INR, DCR
    } else if op % 8 == 6 {
        if op as int / 8 == 6 { 10 } else { 7 }  // MVI
    } else {
        4  // rotates, DAA, CMA, STC, CMC
    }
}

/// Cycle cost of the opcodes from 0xC0 up; conditional returns and calls
/// cost more when taken.
pub open spec fn back_cycles(m: Machine, op: u8) -> u8 {
    let c = (op as int - 0xc0) / 8;
    if op % 8 == 0 {
        if cond_holds(m, c) { 11 } else { 5 }
    } else if op % 16 == 1 {
        10  // POP
    } else if op % 16 == 9 {
        if op == 0xc9 || op == 0xd9 { 10 } else { 5 }  // RET; PCHL, SPHL
    } else if op % 8 == 2 {
        10  // conditional JMP
    } else if op % 16 == 3 {
        if op == 0xe3 { 18 } else if op == 0xf3 { 4 } else { 10 }  // XTHL; DI; JMP, OUT
    } else if op % 16 == 11 {
        if op == 0xdb { 10 } else { 4 }  // IN; XCHG, EI, reserved
    } else if op % 8 == 4 {
        if cond_holds(m, c) { 17 } else { 11 }  // conditional CALL
    } else if op % 16 == 5 {
        11  // PUSH
    } else if op % 16 == 13 {
        17  // CALL
    } else if op % 8 == 6 {
        7  // immediate accumulator operations
    } else {
        11  // RST
    }
}

/// Cycle cost of the instruction at `pc`.
pub open spec fn cycles_spec(m: Machine) -> u8 {
    let op = read8(m, m.pc);
    if op < 0x40 {
        front_cycles(op)
    } else if op < 0x80 {
        if op == 0x76 {
            7  // HLT
        } else if op % 8 == 6 || (op as int - 0x40) / 8 == 6 {
            7  // MOV through memory
        } else {
            5
        }
    } else if op < 0xc0 {
        if op % 8 == 6 { 7 } else { 4 }
    } else {
        back_cycles(m, op)
    }
}

/// Whether `m2` arises from `m1` by exactly `n` fetch-decode-execute
/// steps, for some sequence of port-input bytes.
pub open spec fn reaches(m1: Machine, m2: Machine, n: nat) -> bool
    decreases n,
{
    if n == 0 {
        m1 == m2
    } else {
        exists|b: u8| reaches(step_spec(m1, b), m2, (n - 1) as nat)
    }
}

/// One more step at the far end extends a step chain.
pub proof fn lemma_reaches_snoc(m1: Machine, m2: Machine, n: nat, b: u8)
    requires
        reaches(m1, m2, n),
    ensures
        reaches(m1, step_spec(m2, b), n + 1),
    decreases n,
{
    if n == 0 {
        assert(reaches(step_spec(m1, b), step_spec(m2, b), 0));
    } else {
        let b0 = choose|b0: u8| reaches(step_spec(m1, b0), m2, (n - 1) as nat);
        lemma_reaches_snoc(step_spec(m1, b0), m2, (n - 1) as nat, b);
        assert(reaches(step_spec(m1, b0), step_spec(m2, b), n));
    }
}

/// Every instruction costs between 4 and 18 cycles.
pub proof fn lemma_cycles_pos(m: Machine)
    ensures
        4 <= cycles_spec(m) <= 18,
{
}

} // verus!
