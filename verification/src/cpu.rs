//! The fetch-decode-execute engine.
//!
//! [`Cpu::next`] executes exactly one instruction and is proved to
//! implement [`crate::isa::step_spec`]; [`Cpu::interrupt`] is proved to
//! implement [`crate::isa::interrupt_spec`].

use vstd::prelude::*;

use crate::io::{NullIO, IO};
use crate::isa::{add_spec, adv, alu_spec, ana_spec, back_op, call_spec, cond_holds, cycles_spec,
    daa_spec,
    dad_spec, dcr_spec, front_op, imm16, inr_spec, interrupt_spec, ora_spec, pop_adv, pop_val,
    push16, set_dst, src_val, step_spec, sub_flags_spec, sub_spec, xra_spec};
use crate::machine::{parity_of, read8, wrap8, Machine};
use crate::memory::AddressBus;
use crate::register::Register;

verus! {

/// The Intel 8080 execution engine: the register file, a handle to the
/// address bus, the port capability, and the interrupt and halt markers.
pub struct Cpu<B: AddressBus, I: IO> {
    pub register: Register,
    pub addring: B,
    pub io: I,
    interrupt: bool,
    halted: bool,
}

impl<B: AddressBus, I: IO> View for Cpu<B, I> {
    type V = Machine;

    closed spec fn view(&self) -> Machine {
        Machine {
            a: self.register.a,
            b: self.register.b,
            c: self.register.c,
            d: self.register.d,
            e: self.register.e,
            h: self.register.h,
            l: self.register.l,
            pc: self.register.pc,
            sp: self.register.sp,
            z: self.register.flag_z,
            s: self.register.flag_s,
            p: self.register.flag_p,
            cy: self.register.flag_cy,
            ac: self.register.flag_ac,
            inte: self.interrupt,
            halted: self.halted,
            mem: self.addring.mem(),
            wr: self.addring.wr_set(),
        }
    }
}

impl<B: AddressBus> Cpu<B, NullIO> {
    /// Build an engine over `addring` with no port devices attached: all
    /// registers and flags clear, execution starting at `pc`.
    pub fn new(addring: B, pc: u16) -> (r: Cpu<B, NullIO>)
        requires
            addring.wf(),
        ensures
            r.wf(),
            r@ == (Machine {
                a: 0,
                b: 0,
                c: 0,
                d: 0,
                e: 0,
                h: 0,
                l: 0,
                pc: pc,
                sp: 0,
                z: false,
                s: false,
                p: false,
                cy: false,
                ac: false,
                inte: false,
                halted: false,
                mem: addring.mem(),
                wr: addring.wr_set(),
            }),
    {
        Cpu::with_io(addring, pc, NullIO::new())
    }
}

impl<B: AddressBus, I: IO> Cpu<B, I> {
    /// The engine's invariant: its bus serves the whole address space.
    pub closed spec fn wf(&self) -> bool {
        self.addring.wf()
    }

    /// Build an engine over `addring` and the port capability `io`: all
    /// registers and flags clear, execution starting at `pc`.
    pub fn with_io(addring: B, pc: u16, io: I) -> (r: Cpu<B, I>)
        requires
            addring.wf(),
        ensures
            r.wf(),
            r@ == (Machine {
                a: 0,
                b: 0,
                c: 0,
                d: 0,
                e: 0,
                h: 0,
                l: 0,
                pc: pc,
                sp: 0,
                z: false,
                s: false,
                p: false,
                cy: false,
                ac: false,
                inte: false,
                halted: false,
                mem: addring.mem(),
                wr: addring.wr_set(),
            }),
    {
        let register = Register {
            a: 0,
            b: 0,
            c: 0,
            d: 0,
            e: 0,
            h: 0,
            l: 0,
            pc,
            sp: 0,
            flag_z: false,
            flag_s: false,
            flag_p: false,
            flag_cy: false,
            flag_ac: false,
        };
        Cpu { register, addring, io, interrupt: false, halted: false }
    }

    /// Whether the halt instruction has executed; the driving loop observes
    /// this marker and decides how to proceed.
    pub fn is_halted(&self) -> (r: bool)
        ensures
            r == self@.halted,
    {
        self.halted
    }

    /// Whether interrupts are currently enabled.
    pub fn interrupts_enabled(&self) -> (r: bool)
        ensures
            r == self@.inte,
    {
        self.interrupt
    }

    /// Fetch the byte at `pc` and advance `pc` past it.
    fn get_next_byte(&mut self) -> (r: u8)
        requires
            old(self).wf(),
        ensures
            final(self).wf(),
            final(self)@ == adv(old(self)@, 1),
            r == read8(old(self)@, old(self)@.pc),
    {
        let byte = self.addring.get_mem(self.register.pc);
        self.register.pc = if self.register.pc == 0xffff {
            0
        } else {
            self.register.pc + 1
        };
        byte
    }

    /// Fetch the little-endian word at `pc` and advance `pc` past it.
    fn get_next_word(&mut self) -> (r: u16)
        requires
            old(self).wf(),
        ensures
            final(self).wf(),
            final(self)@ == adv(old(self)@, 2),
            r == imm16(old(self)@),
    {
        let addr = self.register.pc;
        let word = self.addring.get_word(addr);
        self.register.pc = ((self.register.pc as u32 + 2) % 0x10000) as u16;
        word
    }

    /// INR: 8-bit increment flag effect; returns the incremented value.
    fn inr_add(&mut self, r: u8) -> (new_r: u8)
        requires
            old(self).wf(),
        ensures
            final(self).wf(),
            final(self)@ == inr_spec(old(self)@, r),
            new_r == wrap8(r + 1),
    {
        let new_r = ((r as u16 + 1) % 256) as u8;
        self.register.flag_z = new_r == 0;
        self.register.flag_s = new_r >= 0x80;
        self.register.flag_p = parity_of(new_r);
        self.register.flag_ac = r % 16 == 15;
        new_r
    }

    /// DCR: 8-bit decrement flag effect; returns the decremented value.
    fn dcr_sub(&mut self, r: u8) -> (new_r: u8)
        requires
            old(self).wf(),
        ensures
            final(self).wf(),
            final(self)@ == dcr_spec(old(self)@, r),
            new_r == wrap8(r - 1),
    {
        let new_r = ((r as u16 + 255) % 256) as u8;
        self.register.flag_z = new_r == 0;
        self.register.flag_s = new_r >= 0x80;
        self.register.flag_p = parity_of(new_r);
        self.register.flag_ac = r % 16 == 0;
        new_r
    }

    /// DAD: add a 16-bit value into HL; Carry set on 16-bit overflow.
    fn dad_add(&mut self, r: u16)
        requires
            old(self).wf(),
        ensures
            final(self).wf(),
            final(self)@ == dad_spec(old(self)@, r),
    {
        let old_hl = self.register.get_hl();
        let sum = old_hl as u32 + r as u32;
        self.register.set_hl((sum % 0x10000) as u16);
        self.register.flag_cy = sum > 0xffff;
    }

    /// ADD: 8-bit accumulator add.
    fn add(&mut self, r: u8)
        requires
            old(self).wf(),
        ensures
            final(self).wf(),
            final(self)@ == add_spec(old(self)@, r, 0),
    {
        let r_a = self.register.a;
        let sum = r_a as u16 + r as u16;
        let new_a = (sum % 256) as u8;
        self.register.a = new_a;
        self.register.flag_z = new_a == 0;
        self.register.flag_s = new_a >= 0x80;
        self.register.flag_p = parity_of(new_a);
        self.register.flag_cy = sum > 255;
        self.register.flag_ac = r_a % 16 + r % 16 > 15;
    }

    /// ADC: 8-bit accumulator add with incoming carry.
    fn adc(&mut self, r: u8)
        requires
            old(self).wf(),
        ensures
            final(self).wf(),
            final(self)@ == add_spec(old(self)@, r, if old(self)@.cy { 1int } else { 0int }),
    {
        let c: u8 = if self.register.flag_cy {
            1
        } else {
            0
        };
        let old_a = self.register.a;
        let sum = old_a as u16 + r as u16 + c as u16;
        let new_a = (sum % 256) as u8;
        self.register.flag_z = new_a == 0;
        self.register.flag_s = new_a >= 0x80;
        self.register.flag_p = parity_of(new_a);
        self.register.flag_cy = sum > 255;
        self.register.flag_ac = old_a % 16 + r % 16 + c > 15;
        self.register.a = new_a;
    }

    /// SUB: 8-bit accumulator subtract.
    fn sub(&mut self, r: u8)
        requires
            old(self).wf(),
        ensures
            final(self).wf(),
            final(self)@ == sub_spec(old(self)@, r, 0),
    {
        let old_a = self.register.a;
        let new_a = ((old_a as u16 + 256 - r as u16) % 256) as u8;
        self.register.flag_z = new_a == 0;
        self.register.flag_s = new_a >= 0x80;
        self.register.flag_p = parity_of(new_a);
        self.register.flag_cy = old_a < r;
        self.register.flag_ac = old_a % 16 >= r % 16;
        self.register.a = new_a;
    }

    /// SBB: 8-bit accumulator subtract with incoming borrow.
    #[verifier::rlimit(50)]
    fn sbb(&mut self, r: u8)
        requires
            old(self).wf(),
        ensures
            final(self).wf(),
            final(self)@ == sub_spec(old(self)@, r, if old(self)@.cy { 1int } else { 0int }),
    {
        let c: u8 = if self.register.flag_cy {
            1
        } else {
            0
        };
        let old_a = self.register.a;
        let new_a = ((old_a as u16 + 256 - r as u16 - c as u16) % 256) as u8;
        self.register.flag_z = new_a == 0;
        self.register.flag_s = new_a >= 0x80;
        self.register.flag_p = parity_of(new_a);
        self.register.flag_cy = (old_a as u16) < r as u16 + c as u16;
        self.register.flag_ac = old_a as u16 % 16 >= r as u16 % 16 + c as u16;
        self.register.a = new_a;
    }

    /// ANA: accumulator bitwise and.
    fn ana(&mut self, r: u8)
        requires
            old(self).wf(),
        ensures
            final(self).wf(),
            final(self)@ == ana_spec(old(self)@, r),
    {
        let new_a = self.register.a & r;
        self.register.flag_z = new_a == 0;
        self.register.flag_s = new_a >= 0x80;
        self.register.flag_p = parity_of(new_a);
        self.register.flag_cy = false;
        self.register.flag_ac = new_a & 8 != 0;
        self.register.a = new_a;
    }

    /// XRA: accumulator bitwise exclusive or.
    fn xra(&mut self, r: u8)
        requires
            old(self).wf(),
        ensures
            final(self).wf(),
            final(self)@ == xra_spec(old(self)@, r),
    {
        let new_a = self.register.a ^ r;
        self.register.flag_z = new_a == 0;
        self.register.flag_s = new_a >= 0x80;
        self.register.flag_p = parity_of(new_a);
        self.register.flag_cy = false;
        self.register.flag_ac = false;
        self.register.a = new_a;
    }

    /// ORA: accumulator bitwise or.
    fn ora(&mut self, r: u8)
        requires
            old(self).wf(),
        ensures
            final(self).wf(),
            final(self)@ == ora_spec(old(self)@, r),
    {
        let new_a = self.register.a | r;
        self.register.flag_z = new_a == 0;
        self.register.flag_s = new_a >= 0x80;
        self.register.flag_p = parity_of(new_a);
        self.register.flag_cy = false;
        self.register.flag_ac = false;
        self.register.a = new_a;
    }

    /// CMP: the subtraction's flag effect without storing the result.
    fn cmp(&mut self, r: u8)
        requires
            old(self).wf(),
        ensures
            final(self).wf(),
            final(self)@ == sub_flags_spec(old(self)@, r, 0),
    {
        let old_a = self.register.a;
        let new_a = ((old_a as u16 + 256 - r as u16) % 256) as u8;
        self.register.flag_s = new_a >= 0x80;
        self.register.flag_z = new_a == 0;
        self.register.flag_ac = old_a % 16 >= r % 16;
        self.register.flag_p = parity_of(new_a);
        self.register.flag_cy = old_a < r;
    }

    /// Push a word: the stack pointer first moves down by 2, then the word
    /// is written at the new stack pointer.
    fn stack_add(&mut self, value: u16)
        requires
            old(self).wf(),
        ensures
            final(self).wf(),
            final(self)@ == push16(old(self)@, value),
    {
        self.register.sp = ((self.register.sp as u32 + 0x10000 - 2) % 0x10000) as u16;
        self.addring.set_word(self.register.sp, value);
    }

    /// Pop a word: read at the stack pointer, then move it up by 2.
    fn stack_pop(&mut self) -> (r: u16)
        requires
            old(self).wf(),
        ensures
            final(self).wf(),
            final(self)@ == pop_adv(old(self)@),
            r == pop_val(old(self)@),
    {
        let value = self.addring.get_word(self.register.sp);
        self.register.sp = ((self.register.sp as u32 + 2) % 0x10000) as u16;
        value
    }

    /// Conditional jump: the operand is always consumed; `pc` is redirected
    /// only when the condition holds.
    fn condition_jmp(&mut self, condition: bool)
        requires
            old(self).wf(),
        ensures
            final(self).wf(),
            final(self)@ == (if condition {
                Machine { pc: imm16(old(self)@), ..old(self)@ }
            } else {
                adv(old(self)@, 2)
            }),
    {
        let word = self.get_next_word();
        if condition {
            self.register.pc = word;
        }
    }

    /// Conditional call: the operand is always consumed; the return address
    /// is pushed and `pc` redirected only when the condition holds.
    fn condition_call(&mut self, condition: bool)
        requires
            old(self).wf(),
        ensures
            final(self).wf(),
            final(self)@ == (if condition {
                call_spec(adv(old(self)@, 2), imm16(old(self)@))
            } else {
                adv(old(self)@, 2)
            }),
    {
        let word = self.get_next_word();
        if condition {
            self.stack_add(self.register.pc);
            self.register.pc = word;
        }
    }

    /// Unconditional call: push the address following the operand, then
    /// redirect `pc` to the operand.
    fn call(&mut self)
        requires
            old(self).wf(),
        ensures
            final(self).wf(),
            final(self)@ == call_spec(adv(old(self)@, 2), imm16(old(self)@)),
    {
        let word = self.get_next_word();
        self.stack_add(self.register.pc);
        self.register.pc = word;
    }

    /// RST: call one of the eight fixed low-memory vectors.
    fn rst_to(&mut self, vector: u16)
        requires
            old(self).wf(),
        ensures
            final(self).wf(),
            final(self)@ == call_spec(old(self)@, vector),
    {
        self.stack_add(self.register.pc);
        self.register.pc = vector;
    }

    /// Value of 8-bit operand slot `idx` (slot 6 reads memory at HL).
    fn get_src(&self, idx: u8) -> (r: u8)
        requires
            self.wf(),
            idx < 8,
        ensures
            r == src_val(self@, idx as int),
    {
        if idx == 0 {
            self.register.b
        } else if idx == 1 {
            self.register.c
        } else if idx == 2 {
            self.register.d
        } else if idx == 3 {
            self.register.e
        } else if idx == 4 {
            self.register.h
        } else if idx == 5 {
            self.register.l
        } else if idx == 6 {
            self.addring.get_mem(self.register.get_hl())
        } else {
            self.register.a
        }
    }

    /// Store to 8-bit operand slot `idx` (slot 6 writes memory at HL).
    fn set_dst8(&mut self, idx: u8, v: u8)
        requires
            old(self).wf(),
            idx < 8,
        ensures
            final(self).wf(),
            final(self)@ == set_dst(old(self)@, idx as int, v),
    {
        if idx == 0 {
            self.register.b = v;
        } else if idx == 1 {
            self.register.c = v;
        } else if idx == 2 {
            self.register.d = v;
        } else if idx == 3 {
            self.register.e = v;
        } else if idx == 4 {
            self.register.h = v;
        } else if idx == 5 {
            self.register.l = v;
        } else if idx == 6 {
            let addr = self.register.get_hl();
            self.addring.set_mem(addr, v);
        } else {
            self.register.a = v;
        }
    }

    /// DAA: decimal-adjust the accumulator per binary-coded-decimal rules.
    fn daa(&mut self)
        requires
            old(self).wf(),
        ensures
            final(self).wf(),
            final(self)@ == daa_spec(old(self)@),
    {
        let a = self.register.a;
        let lsb = a % 16;
        let low_adj = lsb > 9 || self.register.flag_ac;
        let a1 = if low_adj {
            ((a as u16 + 6) % 256) as u8
        } else {
            a
        };
        self.register.flag_ac = low_adj && lsb + 6 > 15;
        let high_adj = self.register.flag_cy || a1 / 16 > 9;
        let a2 = if high_adj {
            ((a1 as u16 + 0x60) % 256) as u8
        } else {
            a1
        };
        if high_adj && a1 as u16 + 0x60 > 255 {
            self.register.flag_cy = true;
        }
        self.register.a = a2;
        self.register.flag_z = a2 == 0;
        self.register.flag_s = a2 >= 0x80;
        self.register.flag_p = parity_of(a2);
    }

    /// Opcodes 0x00–0x3F: dispatch by row of the opcode grid.
    fn op_front(&mut self, op: u8)
        requires
            old(self).wf(),
            op < 0x40,
        ensures
            final(self).wf(),
            final(self)@ == front_op(old(self)@, op),
    {
        if op < 0x08 {
            self.front_row_0(op);
        } else if op < 0x10 {
            self.front_row_0b(op);
        } else if op < 0x18 {
            self.front_row_1(op);
        } else if op < 0x20 {
            self.front_row_1b(op);
        } else if op < 0x28 {
            self.front_row_2(op);
        } else if op < 0x30 {
            self.front_row_2b(op);
        } else if op < 0x38 {
            self.front_row_3(op);
        } else {
            self.front_row_3b(op);
        }
    }

    /// Opcodes 0x00–0x07.
    #[verifier::rlimit(100)]
    fn front_row_0(&mut self, op: u8)
        requires
            old(self).wf(),
            0x00 <= op < 0x08,
        ensures
            final(self).wf(),
            final(self)@ == front_op(old(self)@, op),
    {
        match op {
            // NOP
            0x00 => {},
            // LXI B,D16
            0x01 => {
                let w = self.get_next_word();
                self.register.set_bc(w);
            },
            // STAX B
            0x02 => {
                let addr = self.register.get_bc();
                let a = self.register.a;
                self.addring.set_mem(addr, a);
            },
            // INX B
            0x03 => {
                let v = self.register.get_bc();
                self.register.set_bc(((v as u32 + 1) % 0x10000) as u16);
            },
            // INR B
            0x04 => {
                let v = self.register.b;
                let nv = self.inr_add(v);
                self.register.b = nv;
            },
            // DCR B
            0x05 => {
                let v = self.register.b;
                let nv = self.dcr_sub(v);
                self.register.b = nv;
            },
            // MVI B,D8
            0x06 => {
                let byte = self.get_next_byte();
                self.register.b = byte;
            },
            // RLC: rotate left, bit 7 to both Carry and bit 0
            // (no other value reaches this arm)
            _ => {
                let a = self.register.a;
                self.register.a = (((a as u16) * 2 + (a as u16) / 128) % 256) as u8;
                self.register.flag_cy = a >= 128;
            },
        }
    }

    /// Opcodes 0x08–0x0F.
    #[verifier::rlimit(100)]
    fn front_row_0b(&mut self, op: u8)
        requires
            old(self).wf(),
            0x08 <= op < 0x10,
        ensures
            final(self).wf(),
            final(self)@ == front_op(old(self)@, op),
    {
        match op {
            // reserved slot: behaves as NOP
            0x08 => {},
            // DAD B
            0x09 => {
                let v = self.register.get_bc();
                self.dad_add(v);
            },
            // LDAX B
            0x0a => {
                let addr = self.register.get_bc();
                self.register.a = self.addring.get_mem(addr);
            },
            // DCX B
            0x0b => {
                let v = self.register.get_bc();
                self.register.set_bc(((v as u32 + 0xffff) % 0x10000) as u16);
            },
            // INR C
            0x0c => {
                let v = self.register.c;
                let nv = self.inr_add(v);
                self.register.c = nv;
            },
            // DCR C
            0x0d => {
                let v = self.register.c;
                let nv = self.dcr_sub(v);
                self.register.c = nv;
            },
            // MVI C,D8
            0x0e => {
                let byte = self.get_next_byte();
                self.register.c = byte;
            },
            // RRC: rotate right, bit 0 to both Carry and bit 7
            // (no other value reaches this arm)
            _ => {
                let a = self.register.a;
                self.register.a = a % 2 * 128 + a / 2;
                self.register.flag_cy = a % 2 == 1;
            },
        }
    }

    /// Opcodes 0x10–0x17.
    #[verifier::rlimit(100)]
    fn front_row_1(&mut self, op: u8)
        requires
            old(self).wf(),
            0x10 <= op < 0x18,
        ensures
            final(self).wf(),
            final(self)@ == front_op(old(self)@, op),
    {
        match op {
            // reserved slot: behaves as NOP
            0x10 => {},
            // LXI D,D16
            0x11 => {
                let w = self.get_next_word();
                self.register.set_de(w);
            },
            // STAX D
            0x12 => {
                let addr = self.register.get_de();
                let a = self.register.a;
                self.addring.set_mem(addr, a);
            },
            // INX D
            0x13 => {
                let v = self.register.get_de();
                self.register.set_de(((v as u32 + 1) % 0x10000) as u16);
            },
            // INR D
            0x14 => {
                let v = self.register.d;
                let nv = self.inr_add(v);
                self.register.d = nv;
            },
            // DCR D
            0x15 => {
                let v = self.register.d;
                let nv = self.dcr_sub(v);
                self.register.d = nv;
            },
            // MVI D,D8
            0x16 => {
                let byte = self.get_next_byte();
                self.register.d = byte;
            },
            // RAL: rotate left through Carry
            // (no other value reaches this arm)
            _ => {
                let old_cy: u8 = if self.register.flag_cy {
                    1
                } else {
                    0
                };
                let a = self.register.a;
                self.register.a = (((a as u16) * 2 + old_cy as u16) % 256) as u8;
                self.register.flag_cy = a >= 128;
            },
        }
    }

    /// Opcodes 0x18–0x1F.
    #[verifier::rlimit(100)]
    fn front_row_1b(&mut self, op: u8)
        requires
            old(self).wf(),
            0x18 <= op < 0x20,
        ensures
            final(self).wf(),
            final(self)@ == front_op(old(self)@, op),
    {
        match op {
            // reserved slot: behaves as NOP
            0x18 => {},
            // DAD D
            0x19 => {
                let v = self.register.get_de();
                self.dad_add(v);
            },
            // LDAX D
            0x1a => {
                let addr = self.register.get_de();
                self.register.a = self.addring.get_mem(addr);
            },
            // DCX D
            0x1b => {
                let v = self.register.get_de();
                self.register.set_de(((v as u32 + 0xffff) % 0x10000) as u16);
            },
            // INR E
            0x1c => {
                let v = self.register.e;
                let nv = self.inr_add(v);
                self.register.e = nv;
            },
            // DCR E
            0x1d => {
                let v = self.register.e;
                let nv = self.dcr_sub(v);
                self.register.e = nv;
            },
            // MVI E,D8
            0x1e => {
                let byte = self.get_next_byte();
                self.register.e = byte;
            },
            // RAR: rotate right through Carry
            // (no other value reaches this arm)
            _ => {
                let old_cy: u8 = if self.register.flag_cy {
                    128
                } else {
                    0
                };
                let a = self.register.a;
                self.register.a = old_cy + a / 2;
                self.register.flag_cy = a % 2 == 1;
            },
        }
    }

    /// Opcodes 0x20–0x27.
    #[verifier::rlimit(100)]
    fn front_row_2(&mut self, op: u8)
        requires
            old(self).wf(),
            0x20 <= op < 0x28,
        ensures
            final(self).wf(),
            final(self)@ == front_op(old(self)@, op),
    {
        match op {
            // RIM on later processors; here a reserved no-op slot
            0x20 => {},
            // LXI H,D16
            0x21 => {
                let w = self.get_next_word();
                self.register.set_hl(w);
            },
            // SHLD adr
            0x22 => {
                let addr = self.get_next_word();
                let hl = self.register.get_hl();
                self.addring.set_word(addr, hl);
            },
            // INX H
            0x23 => {
                let v = self.register.get_hl();
                self.register.set_hl(((v as u32 + 1) % 0x10000) as u16);
            },
            // INR H
            0x24 => {
                let v = self.register.h;
                let nv = self.inr_add(v);
                self.register.h = nv;
            },
            // DCR H
            0x25 => {
                let v = self.register.h;
                let nv = self.dcr_sub(v);
                self.register.h = nv;
            },
            // MVI H,D8
            0x26 => {
                let byte = self.get_next_byte();
                self.register.h = byte;
            },
            // DAA
            // (no other value reaches this arm)
            _ => self.daa(),
        }
    }

    /// Opcodes 0x28–0x2F.
    #[verifier::rlimit(100)]
    fn front_row_2b(&mut self, op: u8)
        requires
            old(self).wf(),
            0x28 <= op < 0x30,
        ensures
            final(self).wf(),
            final(self)@ == front_op(old(self)@, op),
    {
        match op {
            // reserved slot: behaves as NOP
            0x28 => {},
            // DAD H
            0x29 => {
                let v = self.register.get_hl();
                self.dad_add(v);
            },
            // LHLD adr
            0x2a => {
                let addr = self.get_next_word();
                self.register.l = self.addring.get_mem(addr);
                let addr_hi = if addr == 0xffff {
                    0
                } else {
                    addr + 1
                };
                self.register.h = self.addring.get_mem(addr_hi);
            },
            // DCX H
            0x2b => {
                let v = self.register.get_hl();
                self.register.set_hl(((v as u32 + 0xffff) % 0x10000) as u16);
            },
            // INR L
            0x2c => {
                let v = self.register.l;
                let nv = self.inr_add(v);
                self.register.l = nv;
            },
            // DCR L
            0x2d => {
                let v = self.register.l;
                let nv = self.dcr_sub(v);
                self.register.l = nv;
            },
            // MVI L,D8
            0x2e => {
                let byte = self.get_next_byte();
                self.register.l = byte;
            },
            // CMA
            // (no other value reaches this arm)
            _ => {
                self.register.a = !self.register.a;
            },
        }
    }

    /// Opcodes 0x30–0x37.
    #[verifier::rlimit(100)]
    fn front_row_3(&mut self, op: u8)
        requires
            old(self).wf(),
            0x30 <= op < 0x38,
        ensures
            final(self).wf(),
            final(self)@ == front_op(old(self)@, op),
    {
        match op {
            // SIM on later processors; here a reserved no-op slot
            0x30 => {},
            // LXI SP,D16
            0x31 => {
                let w = self.get_next_word();
                self.register.sp = w;
            },
            // STA adr
            0x32 => {
                let addr = self.get_next_word();
                let a = self.register.a;
                self.addring.set_mem(addr, a);
            },
            // INX SP
            0x33 => {
                self.register.sp = ((self.register.sp as u32 + 1) % 0x10000) as u16;
            },
            // INR M
            0x34 => {
                let addr = self.register.get_hl();
                let v = self.addring.get_mem(addr);
                let nv = self.inr_add(v);
                self.addring.set_mem(addr, nv);
            },
            // DCR M
            0x35 => {
                let addr = self.register.get_hl();
                let v = self.addring.get_mem(addr);
                let nv = self.dcr_sub(v);
                self.addring.set_mem(addr, nv);
            },
            // MVI M,D8
            0x36 => {
                let byte = self.get_next_byte();
                let addr = self.register.get_hl();
                self.addring.set_mem(addr, byte);
            },
            // STC
            // (no other value reaches this arm)
            _ => {
                self.register.flag_cy = true;
            },
        }
    }

    /// Opcodes 0x38–0x3F.
    #[verifier::rlimit(100)]
    fn front_row_3b(&mut self, op: u8)
        requires
            old(self).wf(),
            0x38 <= op < 0x40,
        ensures
            final(self).wf(),
            final(self)@ == front_op(old(self)@, op),
    {
        match op {
            // reserved slot: behaves as NOP
            0x38 => {},
            // DAD SP
            0x39 => {
                let v = self.register.sp;
                self.dad_add(v);
            },
            // LDA adr
            0x3a => {
                let addr = self.get_next_word();
                self.register.a = self.addring.get_mem(addr);
            },
            // DCX SP
            0x3b => {
                self.register.sp = ((self.register.sp as u32 + 0xffff) % 0x10000) as u16;
            },
            // INR A
            0x3c => {
                let v = self.register.a;
                let nv = self.inr_add(v);
                self.register.a = nv;
            },
            // DCR A
            0x3d => {
                let v = self.register.a;
                let nv = self.dcr_sub(v);
                self.register.a = nv;
            },
            // MVI A,D8
            0x3e => {
                let byte = self.get_next_byte();
                self.register.a = byte;
            },
            // CMC (0x3f; no other value reaches this arm)
            // (no other value reaches this arm)
            _ => {
                self.register.flag_cy = !self.register.flag_cy;
            },
        }
    }

    /// MOV: opcodes 0x40–0x7F except HLT.
    fn op_mov(&mut self, op: u8)
        requires
            old(self).wf(),
            0x40 <= op < 0x80,
            op != 0x76,
        ensures
            final(self).wf(),
            final(self)@ == set_dst(
                old(self)@,
                (op as int - 0x40) / 8,
                src_val(old(self)@, op as int % 8),
            ),
    {
        let v = self.get_src(op % 8);
        self.set_dst8((op - 0x40) / 8, v);
    }

    /// The eight accumulator operation groups, by group index.
    fn alu_op(&mut self, kind: u8, v: u8)
        requires
            old(self).wf(),
            kind < 8,
        ensures
            final(self).wf(),
            final(self)@ == alu_spec(old(self)@, kind as int, v),
    {
        if kind == 0 {
            self.add(v);
        } else if kind == 1 {
            self.adc(v);
        } else if kind == 2 {
            self.sub(v);
        } else if kind == 3 {
            self.sbb(v);
        } else if kind == 4 {
            self.ana(v);
        } else if kind == 5 {
            self.xra(v);
        } else if kind == 6 {
            self.ora(v);
        } else {
            self.cmp(v);
        }
    }

    /// Opcodes 0xC0–0xFF: dispatch by row of the opcode grid.
    fn op_back(&mut self, op: u8)
        requires
            old(self).wf(),
            0xc0 <= op,
        ensures
            final(self).wf(),
            op == 0xdb ==> exists|b: u8| final(self)@ == back_op(old(self)@, op, b),
            op != 0xdb ==> final(self)@ == back_op(old(self)@, op, 0),
    {
        if op < 0xc8 {
            self.back_row_0(op);
        } else if op < 0xd0 {
            self.back_row_0b(op);
        } else if op < 0xd8 {
            self.back_row_1(op);
        } else if op < 0xe0 {
            self.back_row_1b(op);
        } else if op < 0xe8 {
            self.back_row_2(op);
        } else if op < 0xf0 {
            self.back_row_2b(op);
        } else if op < 0xf8 {
            self.back_row_3(op);
        } else {
            self.back_row_3b(op);
        }
    }

    /// Opcodes 0xC0–0xC7.
    #[verifier::rlimit(100)]
    fn back_row_0(&mut self, op: u8)
        requires
            old(self).wf(),
            0xc0 <= op < 0xc8,
        ensures
            final(self).wf(),
            final(self)@ == back_op(old(self)@, op, 0),
    {
        match op {
            // RNZ
            0xc0 => {
                if !self.register.flag_z {
                    self.register.pc = self.stack_pop();
                }
            },
            // POP B
            0xc1 => {
                let v = self.stack_pop();
                self.register.set_bc(v);
            },
            // JNZ adr
            0xc2 => {
                let f = self.register.flag_z;
                self.condition_jmp(!f);
            },
            // JMP adr
            0xc3 => {
                let w = self.get_next_word();
                self.register.pc = w;
            },
            // CNZ adr
            0xc4 => {
                let f = self.register.flag_z;
                self.condition_call(!f);
            },
            // PUSH B
            0xc5 => {
                let v = self.register.get_bc();
                self.stack_add(v);
            },
            // ADI D8
            0xc6 => {
                let d = self.get_next_byte();
                self.add(d);
            },
            // RST 0
            // (no other value reaches this arm)
            _ => self.rst_to(0x00),
        }
    }

    /// Opcodes 0xC8–0xCF.
    #[verifier::rlimit(100)]
    fn back_row_0b(&mut self, op: u8)
        requires
            old(self).wf(),
            0xc8 <= op < 0xd0,
        ensures
            final(self).wf(),
            final(self)@ == back_op(old(self)@, op, 0),
    {
        match op {
            // RZ
            0xc8 => {
                if self.register.flag_z {
                    self.register.pc = self.stack_pop();
                }
            },
            // RET
            0xc9 => {
                self.register.pc = self.stack_pop();
            },
            // JZ adr
            0xca => {
                let f = self.register.flag_z;
                self.condition_jmp(f);
            },
            // reserved slot: no-op
            0xcb => {},
            // CZ adr
            0xcc => {
                let f = self.register.flag_z;
                self.condition_call(f);
            },
            // CALL adr
            0xcd => self.call(),
            // ACI D8
            0xce => {
                let d = self.get_next_byte();
                self.adc(d);
            },
            // RST 1
            // (no other value reaches this arm)
            _ => self.rst_to(0x08),
        }
    }

    /// Opcodes 0xD0–0xD7.
    #[verifier::rlimit(100)]
    fn back_row_1(&mut self, op: u8)
        requires
            old(self).wf(),
            0xd0 <= op < 0xd8,
        ensures
            final(self).wf(),
            final(self)@ == back_op(old(self)@, op, 0),
    {
        match op {
            // RNC
            0xd0 => {
                if !self.register.flag_cy {
                    self.register.pc = self.stack_pop();
                }
            },
            // POP D
            0xd1 => {
                let v = self.stack_pop();
                self.register.set_de(v);
            },
            // JNC adr
            0xd2 => {
                let f = self.register.flag_cy;
                self.condition_jmp(!f);
            },
            // OUT D8: hand the accumulator to the port device
            0xd3 => {
                let port = self.get_next_byte();
                let a = self.register.a;
                self.io.output(&self.register, port, a);
            },
            // CNC adr
            0xd4 => {
                let f = self.register.flag_cy;
                self.condition_call(!f);
            },
            // PUSH D
            0xd5 => {
                let v = self.register.get_de();
                self.stack_add(v);
            },
            // SUI D8
            0xd6 => {
                let d = self.get_next_byte();
                self.sub(d);
            },
            // RST 2
            // (no other value reaches this arm)
            _ => self.rst_to(0x10),
        }
    }

    /// Opcodes 0xD8–0xDF.
    #[verifier::rlimit(100)]
    fn back_row_1b(&mut self, op: u8)
        requires
            old(self).wf(),
            0xd8 <= op < 0xe0,
        ensures
            final(self).wf(),
            op == 0xdb ==> exists|b: u8| final(self)@ == back_op(old(self)@, op, b),
            op != 0xdb ==> final(self)@ == back_op(old(self)@, op, 0),
    {
        match op {
            // RC
            0xd8 => {
                if self.register.flag_cy {
                    self.register.pc = self.stack_pop();
                }
            },
            // reserved slot: behaves as RET
            0xd9 => {
                self.register.pc = self.stack_pop();
            },
            // JC adr
            0xda => {
                let f = self.register.flag_cy;
                self.condition_jmp(f);
            },
            // IN D8: the port device supplies the accumulator
            0xdb => {
                let port = self.get_next_byte();
                let b = self.io.input(&self.register, port);
                self.register.a = b;
                proof {
                    assert(self@ == back_op(old(self)@, op, b));
                }
            },
            // CC adr
            0xdc => {
                let f = self.register.flag_cy;
                self.condition_call(f);
            },
            // reserved slot: behaves as CALL
            0xdd => self.call(),
            // SBI D8
            0xde => {
                let d = self.get_next_byte();
                self.sbb(d);
            },
            // RST 3
            // (no other value reaches this arm)
            _ => self.rst_to(0x18),
        }
    }

    /// Opcodes 0xE0–0xE7.
    #[verifier::rlimit(100)]
    fn back_row_2(&mut self, op: u8)
        requires
            old(self).wf(),
            0xe0 <= op < 0xe8,
        ensures
            final(self).wf(),
            final(self)@ == back_op(old(self)@, op, 0),
    {
        match op {
            // RPO
            0xe0 => {
                if !self.register.flag_p {
                    self.register.pc = self.stack_pop();
                }
            },
            // POP H
            0xe1 => {
                let v = self.stack_pop();
                self.register.set_hl(v);
            },
            // JPO adr
            0xe2 => {
                let f = self.register.flag_p;
                self.condition_jmp(!f);
            },
            // XTHL: swap HL with the word at the top of the stack
            0xe3 => {
                let sp = self.register.sp;
                let sp_hi = if sp == 0xffff {
                    0
                } else {
                    sp + 1
                };
                let lo = self.addring.get_mem(sp);
                let hi = self.addring.get_mem(sp_hi);
                let l = self.register.l;
                let h = self.register.h;
                self.addring.set_mem(sp, l);
                self.addring.set_mem(sp_hi, h);
                self.register.l = lo;
                self.register.h = hi;
            },
            // CPO adr
            0xe4 => {
                let f = self.register.flag_p;
                self.condition_call(!f);
            },
            // PUSH H
            0xe5 => {
                let v = self.register.get_hl();
                self.stack_add(v);
            },
            // ANI D8
            0xe6 => {
                let d = self.get_next_byte();
                self.ana(d);
            },
            // RST 4
            // (no other value reaches this arm)
            _ => self.rst_to(0x20),
        }
    }

    /// Opcodes 0xE8–0xEF.
    #[verifier::rlimit(100)]
    fn back_row_2b(&mut self, op: u8)
        requires
            old(self).wf(),
            0xe8 <= op < 0xf0,
        ensures
            final(self).wf(),
            final(self)@ == back_op(old(self)@, op, 0),
    {
        match op {
            // RPE
            0xe8 => {
                if self.register.flag_p {
                    self.register.pc = self.stack_pop();
                }
            },
            // PCHL
            0xe9 => {
                self.register.pc = self.register.get_hl();
            },
            // JPE adr
            0xea => {
                let f = self.register.flag_p;
                self.condition_jmp(f);
            },
            // XCHG: swap HL with DE
            0xeb => {
                let h = self.register.h;
                let l = self.register.l;
                self.register.h = self.register.d;
                self.register.l = self.register.e;
                self.register.d = h;
                self.register.e = l;
            },
            // CPE adr
            0xec => {
                let f = self.register.flag_p;
                self.condition_call(f);
            },
            // reserved slot: behaves as CALL
            0xed => self.call(),
            // XRI D8
            0xee => {
                let d = self.get_next_byte();
                self.xra(d);
            },
            // RST 5
            // (no other value reaches this arm)
            _ => self.rst_to(0x28),
        }
    }

    /// Opcodes 0xF0–0xF7.
    #[verifier::rlimit(100)]
    fn back_row_3(&mut self, op: u8)
        requires
            old(self).wf(),
            0xf0 <= op < 0xf8,
        ensures
            final(self).wf(),
            final(self)@ == back_op(old(self)@, op, 0),
    {
        match op {
            // RP
            0xf0 => {
                if !self.register.flag_s {
                    self.register.pc = self.stack_pop();
                }
            },
            // POP PSW: the flags load from the packed byte
            0xf1 => {
                let v = self.stack_pop();
                self.register.a = (v / 256) as u8;
                self.register.set_flags((v % 256) as u8);
            },
            // JP adr: jump if the sign flag is clear
            0xf2 => {
                let f = self.register.flag_s;
                self.condition_jmp(!f);
            },
            // DI
            0xf3 => {
                self.interrupt = false;
            },
            // CP adr
            0xf4 => {
                let f = self.register.flag_s;
                self.condition_call(!f);
            },
            // PUSH PSW
            0xf5 => {
                let v = self.register.get_af();
                self.stack_add(v);
            },
            // ORI D8
            0xf6 => {
                let d = self.get_next_byte();
                self.ora(d);
            },
            // RST 6
            // (no other value reaches this arm)
            _ => self.rst_to(0x30),
        }
    }

    /// Opcodes 0xF8–0xFF.
    #[verifier::rlimit(100)]
    fn back_row_3b(&mut self, op: u8)
        requires
            old(self).wf(),
            0xf8 <= op,
        ensures
            final(self).wf(),
            final(self)@ == back_op(old(self)@, op, 0),
    {
        match op {
            // RM
            0xf8 => {
                if self.register.flag_s {
                    self.register.pc = self.stack_pop();
                }
            },
            // SPHL
            0xf9 => {
                self.register.sp = self.register.get_hl();
            },
            // JM adr
            0xfa => {
                let f = self.register.flag_s;
                self.condition_jmp(f);
            },
            // EI
            0xfb => {
                self.interrupt = true;
            },
            // CM adr
            0xfc => {
                let f = self.register.flag_s;
                self.condition_call(f);
            },
            // reserved slot: behaves as CALL
            0xfd => self.call(),
            // CPI D8
            0xfe => {
                let d = self.get_next_byte();
                self.cmp(d);
            },
            // RST 7 (0xff; no other value reaches this arm)
            // (no other value reaches this arm)
            _ => self.rst_to(0x38),
        }
    }

    /// Cycle cost of the instruction `next` is about to execute.
    fn cycle_count(&self) -> (r: u8)
        requires
            self.wf(),
        ensures
            r == cycles_spec(self@),
    {
        let op = self.addring.get_mem(self.register.pc);
        if op < 0x40 {
            if op % 8 == 0 {
                4
            } else if op % 16 == 1 || op % 16 == 9 {
                10
            } else if op % 16 == 2 {
                if op == 0x22 {
                    16
                } else if op == 0x32 {
                    13
                } else {
                    7
                }
            } else if op % 16 == 10 {
                if op == 0x2a {
                    16
                } else if op == 0x3a {
                    13
                } else {
                    7
                }
            } else if op % 16 == 3 || op % 16 == 11 {
                5
            } else if op % 8 == 4 || op % 8 == 5 {
                if op / 8 == 6 {
                    10
                } else {
                    5
                }
            } else if op % 8 == 6 {
                if op / 8 == 6 {
                    10
                } else {
                    7
                }
            } else {
                4
            }
        } else if op < 0x80 {
            if op == 0x76 {
                7
            } else if op % 8 == 6 || (op - 0x40) / 8 == 6 {
                7
            } else {
                5
            }
        } else if op < 0xc0 {
            if op % 8 == 6 {
                7
            } else {
                4
            }
        } else {
            let c = (op - 0xc0) / 8;
            if op % 8 == 0 {
                if self.cond(c) {
                    11
                } else {
                    5
                }
            } else if op % 16 == 1 {
                10
            } else if op % 16 == 9 {
                if op == 0xc9 || op == 0xd9 {
                    10
                } else {
                    5
                }
            } else if op % 8 == 2 {
                10
            } else if op % 16 == 3 {
                if op == 0xe3 {
                    18
                } else if op == 0xf3 {
                    4
                } else {
                    10
                }
            } else if op % 16 == 11 {
                if op == 0xdb {
                    10
                } else {
                    4
                }
            } else if op % 8 == 4 {
                if self.cond(c) {
                    17
                } else {
                    11
                }
            } else if op % 16 == 5 {
                11
            } else if op % 16 == 13 {
                17
            } else if op % 8 == 6 {
                7
            } else {
                11
            }
        }
    }

    /// Execute one instruction: fetch the byte at `pc`, advance `pc` past
    /// it, and dispatch to the fetched opcode's documented behaviour.
    /// Returns the instruction's cycle cost and the opcode value.
    ///
    /// The new state is exactly [`step_spec`] of the old: for every opcode
    /// but IN that pins the whole machine; for IN it pins everything up to
    /// the byte the port device returned.
    pub fn next(&mut self) -> (r: (u8, u8))
        requires
            old(self).wf(),
        ensures
            final(self).wf(),
            r.1 == read8(old(self)@, old(self)@.pc),
            r.0 == cycles_spec(old(self)@),
            r.1 == 0xdb ==> exists|b: u8| final(self)@ == step_spec(old(self)@, b),
            r.1 != 0xdb ==> final(self)@ == step_spec(old(self)@, 0),
    {
        let ghost pre = self@;
        let cycles = self.cycle_count();
        let op_code = self.get_next_byte();
        if op_code < 0x40 {
            self.op_front(op_code);
        } else if op_code < 0x80 {
            if op_code == 0x76 {
                // HLT: set the halted marker; the driving loop reacts
                self.halted = true;
            } else {
                self.op_mov(op_code);
            }
        } else if op_code < 0xc0 {
            let v = self.get_src(op_code % 8);
            self.alu_op((op_code - 0x80) / 8, v);
        } else {
            self.op_back(op_code);
        }
        proof {
            if op_code == 0xdb {
                let b = choose|b: u8| self@ == back_op(adv(pre, 1), op_code, b);
                assert(self@ == step_spec(pre, b));
            }
        }
        (cycles, op_code)
    }

    /// Deliver interrupt vector `vector`: when interrupts are enabled,
    /// perform the equivalent of a call to the vector and report true;
    /// otherwise leave all state unchanged and report false.
    pub fn interrupt(&mut self, vector: u16) -> (r: bool)
        requires
            old(self).wf(),
        ensures
            final(self).wf(),
            final(self)@ == interrupt_spec(old(self)@, vector),
            r == old(self)@.inte,
    {
        if self.interrupt {
            self.stack_add(self.register.pc);
            self.register.pc = vector;
            true
        } else {
            false
        }
    }

    /// Whether branch condition `c` holds of the current flags.
    fn cond(&self, c: u8) -> (r: bool)
        requires
            c < 8,
        ensures
            r == cond_holds(self@, c as int),
    {
        if c == 0 {
            !self.register.flag_z
        } else if c == 1 {
            self.register.flag_z
        } else if c == 2 {
            !self.register.flag_cy
        } else if c == 3 {
            self.register.flag_cy
        } else if c == 4 {
            !self.register.flag_p
        } else if c == 5 {
            self.register.flag_p
        } else if c == 6 {
            !self.register.flag_s
        } else {
            self.register.flag_s
        }
    }
}

} // verus!
