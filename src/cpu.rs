//! The processor: fetch, decode and execute, one instruction per step.
use vstd::prelude::*;

use crate::alu::{
    alu8, and8, carry_of, daa8, dec8, diff8, inc8, or8, pack_flags, parity, ral8, rar8, rlc8, rrc8,
    sum8, with_carry, xor8,
};
use crate::bit;
use crate::bit::bit_of;
use crate::device::Device;
use crate::machine::{
    add16, canonical, condition, execute, execute_alu, execute_high, execute_low, execute_mov,
    input_port, lemma_input_only_for_in, output, read16, read_stacked, step, write16, write_stacked,
    Machine,
};
use crate::memory::{Memory, SIZE};
use crate::register::{Flag, Register};

verus! {

/// An 8080 processor attached to the memory `mem`.
pub struct Cpu<M: Memory> {
    pub reg: Register,
    pub mem: M,
    /// Set by HLT; while it is set, a step fetches nothing.
    pub halted: bool,
    /// The interrupt-enable latch: set by EI, cleared by DI.
    pub ei: bool,
}

impl<M: Memory> View for Cpu<M> {
    type V = Machine;

    open spec fn view(&self) -> Machine {
        Machine { reg: self.reg, mem: self.mem.cells(), halted: self.halted, ei: self.ei }
    }
}

impl<M: Memory> Cpu<M> {
    /// The memory covers the whole address space.
    pub open spec fn wf(&self) -> bool {
        self.mem.cells().len() == SIZE
    }

    /// The processor with A and F set to the pair given.
    pub open spec fn with_acc(self, af: (u8, u8)) -> Self {
        Cpu { reg: Register { a: af.0, f: af.1, ..self.reg }, ..self }
    }

    /// The processor with F set to `f`.
    pub open spec fn with_f(self, f: u8) -> Self {
        Cpu { reg: Register { f, ..self.reg }, ..self }
    }

    /// The processor at power-up, on memory `mem`.
    pub fn power_up(mem: M) -> (r: Self)
        requires
            mem.cells().len() == SIZE,
        ensures
            r.wf(),
            r@ == (Machine {
                reg: Register { a: 0, f: 0x02, b: 0, c: 0, d: 0, e: 0, h: 0, l: 0, sp: 0, pc: 0 },
                mem: mem.cells(),
                halted: false,
                ei: false,
            }),
            r.mem == mem,
    {
        Self { reg: Register::power_up(), mem, halted: false, ei: false }
    }

    /// Reads the byte at PC and moves PC past it.
    fn imm_ds(&mut self) -> (r: u8)
        requires
            old(self).wf(),
        ensures
            final(self).wf(),
            r == old(self)@.imm8(),
            final(self)@ == old(self)@.advance(1),
    {
        let v = self.mem.get(self.reg.pc);
        self.reg.pc = self.reg.pc.wrapping_add(1);
        v
    }

    /// Reads the word at PC and moves PC past it.
    fn imm_dw(&mut self) -> (r: u16)
        requires
            old(self).wf(),
        ensures
            final(self).wf(),
            r == old(self)@.imm16(),
            final(self)@ == old(self)@.advance(2),
    {
        let v = self.mem.get_word(self.reg.pc);
        self.reg.pc = self.reg.pc.wrapping_add(2);
        v
    }

    /// The byte at HL.
    fn get_m(&self) -> (r: u8)
        requires
            self.wf(),
        ensures
            r == self@.read8(6),
    {
        let a = self.reg.get_hl();
        self.mem.get(a)
    }

    /// Writes the byte at HL.
    fn set_m(&mut self, v: u8)
        requires
            old(self).wf(),
        ensures
            final(self).wf(),
            final(self)@ == old(self)@.write8(6, v),
    {
        let a = self.reg.get_hl();
        self.mem.set(a, v)
    }

    /// PUSH: lowers SP by two and stores `v` there.
    fn stack_add(&mut self, v: u16)
        requires
            old(self).wf(),
        ensures
            final(self).wf(),
            final(self)@ == old(self)@.push(v),
    {
        self.reg.sp = self.reg.sp.wrapping_sub(2);
        self.mem.set_word(self.reg.sp, v);
    }

    /// POP: the word at SP, with SP raised by two.
    fn stack_pop(&mut self) -> (r: u16)
        requires
            old(self).wf(),
        ensures
            final(self).wf(),
            r == old(self)@.top(),
            final(self)@ == old(self)@.drop2(),
    {
        let r = self.mem.get_word(self.reg.sp);
        self.reg.sp = self.reg.sp.wrapping_add(2);
        r
    }

    /// Operand slot `r`: B, C, D, E, H, L, M, A.
    fn get_r(&self, r: u8) -> (v: u8)
        requires
            self.wf(),
            r < 8,
        ensures
            v == self@.read8(r),
    {
        match r {
            0 => self.reg.b,
            1 => self.reg.c,
            2 => self.reg.d,
            3 => self.reg.e,
            4 => self.reg.h,
            5 => self.reg.l,
            6 => self.get_m(),
            _ => self.reg.a,
        }
    }

    /// Writes operand slot `r`.
    fn set_r(&mut self, r: u8, v: u8)
        requires
            old(self).wf(),
            r < 8,
        ensures
            final(self).wf(),
            final(self)@ == old(self)@.write8(r, v),
    {
        match r {
            0 => self.reg.b = v,
            1 => self.reg.c = v,
            2 => self.reg.d = v,
            3 => self.reg.e = v,
            4 => self.reg.h = v,
            5 => self.reg.l = v,
            6 => self.set_m(v),
            _ => self.reg.a = v,
        }
    }

    /// Register pair `p`: BC, DE, HL, SP.
    fn get_rp(&self, p: u8) -> (v: u16)
        ensures
            v == read16(self.reg, p),
    {
        match p {
            0 => self.reg.get_bc(),
            1 => self.reg.get_de(),
            2 => self.reg.get_hl(),
            _ => self.reg.sp,
        }
    }

    /// Writes register pair `p`.
    fn set_rp(&mut self, p: u8, v: u16)
        requires
            old(self).wf(),
        ensures
            final(self).wf(),
            final(self)@ == old(self)@.with_reg(write16(old(self).reg, p, v)),
    {
        match p {
            0 => self.reg.set_bc(v),
            1 => self.reg.set_de(v),
            2 => self.reg.set_hl(v),
            _ => self.reg.sp = v,
        }
    }

    /// Condition `cc` on the present flags.
    fn cond(&self, cc: u8) -> (r: bool)
        ensures
            r == condition(self.reg.f, cc),
    {
        let flag = match cc / 2 {
            0 => self.reg.get_flag(Flag::Z),
            1 => self.reg.get_flag(Flag::C),
            2 => self.reg.get_flag(Flag::P),
            _ => self.reg.get_flag(Flag::S),
        };
        if cc % 2 == 0 {
            !flag
        } else {
            flag
        }
    }

    /// F for a result `r` with the auxiliary carry and carry given.
    fn result_flags(r: u8, ac: bool, c: bool) -> (f: u8)
        ensures
            f == crate::alu::result_flags(r, ac, c),
    {
        pack_flags(bit::get(r, 7), r == 0, ac, parity(r), c)
    }

    /// INR on the value `n`: the result; F is set from it, C is kept.
    fn alu_inr(&mut self, n: u8) -> (r: u8)
        ensures
            (r, final(self).reg.f) == inc8(n, carry_of(old(self).reg.f)),
            *final(self) == old(self).with_f(final(self).reg.f),
    {
        let r = n.wrapping_add(1);
        let c = self.reg.get_flag(Flag::C);
        self.reg.f = Self::result_flags(r, (n & 0x0f) as u16 + 1 > 0x0f, c);
        r
    }

    /// DCR on the value `n`: the result; F is set from it, C is kept.
    fn alu_dcr(&mut self, n: u8) -> (r: u8)
        ensures
            (r, final(self).reg.f) == dec8(n, carry_of(old(self).reg.f)),
            *final(self) == old(self).with_f(final(self).reg.f),
    {
        let r = n.wrapping_sub(1);
        let c = self.reg.get_flag(Flag::C);
        self.reg.f = Self::result_flags(r, (n & 0x0f) != 0, c);
        r
    }

    /// A + `n` + `c` into A, with its flags.
    fn add_with_carry(&mut self, n: u8, c: bool)
        ensures
            *final(self) == old(self).with_acc(sum8(old(self).reg.a, n, c)),
    {
        let a = self.reg.a;
        let ci: u8 = if c { 1 } else { 0 };
        let t: u16 = a as u16 + n as u16 + ci as u16;
        let r = (t % 256) as u8;
        let ac = (a & 0x0f) as u16 + (n & 0x0f) as u16 + ci as u16 > 0x0f;
        self.reg.f = Self::result_flags(r, ac, t > 0xff);
        self.reg.a = r;
    }

    /// A - `n` - `c` into A, with its flags.
    fn sub_with_borrow(&mut self, n: u8, c: bool)
        ensures
            *final(self) == old(self).with_acc(diff8(old(self).reg.a, n, c)),
    {
        let a = self.reg.a;
        let ci: u8 = if c { 1 } else { 0 };
        let t: u16 = a as u16 + 256 - n as u16 - ci as u16;
        let r = (t % 256) as u8;
        let ac = (a & 0x0f) as u16 + (!n & 0x0f) as u16 + 1 - ci as u16 > 0x0f;
        self.reg.f = Self::result_flags(r, ac, (a as u16) < n as u16 + ci as u16);
        self.reg.a = r;
    }

    /// ADD: A + `n`.
    fn alu_add(&mut self, n: u8)
        ensures
            *final(self) == old(self).with_acc(sum8(old(self).reg.a, n, false)),
    {
        self.add_with_carry(n, false);
    }

    /// ADC: A + `n` + C.
    fn alu_adc(&mut self, n: u8)
        ensures
            *final(self) == old(self).with_acc(sum8(old(self).reg.a, n, carry_of(old(self).reg.f))),
    {
        let c = self.reg.get_flag(Flag::C);
        self.add_with_carry(n, c);
    }

    /// SUB: A - `n`.
    fn alu_sub(&mut self, n: u8)
        ensures
            *final(self) == old(self).with_acc(diff8(old(self).reg.a, n, false)),
    {
        self.sub_with_borrow(n, false);
    }

    /// SBB: A - `n` - C.
    fn alu_sbb(&mut self, n: u8)
        ensures
            *final(self) == old(self).with_acc(diff8(old(self).reg.a, n, carry_of(old(self).reg.f))),
    {
        let c = self.reg.get_flag(Flag::C);
        self.sub_with_borrow(n, c);
    }

    /// ANA: A & `n`.
    fn alu_ana(&mut self, n: u8)
        ensures
            *final(self) == old(self).with_acc(and8(old(self).reg.a, n)),
    {
        let r = self.reg.a & n;
        self.reg.f = Self::result_flags(r, (self.reg.a | n) & 0x08 != 0, false);
        self.reg.a = r;
    }

    /// XRA: A ^ `n`.
    fn alu_xra(&mut self, n: u8)
        ensures
            *final(self) == old(self).with_acc(xor8(old(self).reg.a, n)),
    {
        let r = self.reg.a ^ n;
        self.reg.f = Self::result_flags(r, false, false);
        self.reg.a = r;
    }

    /// ORA: A | `n`.
    fn alu_ora(&mut self, n: u8)
        ensures
            *final(self) == old(self).with_acc(or8(old(self).reg.a, n)),
    {
        let r = self.reg.a | n;
        self.reg.f = Self::result_flags(r, false, false);
        self.reg.a = r;
    }

    /// CMP: the flags of A - `n`; A is kept.
    fn alu_cmp(&mut self, n: u8)
        ensures
            *final(self) == old(self).with_f(diff8(old(self).reg.a, n, false).1),
    {
        let r = self.reg.a;
        self.alu_sub(n);
        self.reg.a = r;
    }

    /// The ALU operation `op` (bits 5..3 of the opcode) on A and `n`.
    fn alu(&mut self, op: u8, n: u8)
        ensures
            *final(self) == old(self).with_acc(alu8(op, old(self).reg.a, n, old(self).reg.f)),
    {
        match op {
            0 => self.alu_add(n),
            1 => self.alu_adc(n),
            2 => self.alu_sub(n),
            3 => self.alu_sbb(n),
            4 => self.alu_ana(n),
            5 => self.alu_xra(n),
            6 => self.alu_ora(n),
            _ => self.alu_cmp(n),
        }
    }

    /// DAA: adjusts A to two binary-coded decimal digits.
    fn alu_daa(&mut self)
        ensures
            *final(self) == old(self).with_acc(daa8(old(self).reg.a, old(self).reg.f)),
    {
        let a = self.reg.a;
        let mut r: u8 = a;
        let low_adjust = (r & 0x0f) > 9 || self.reg.get_flag(Flag::A);
        if low_adjust {
            r = r.wrapping_add(0x06);
        }
        assert(r == if low_adjust { ((a + 6) % 256) as u8 } else { a });
        let a1 = r;
        let high_adjust = r > 0x9f || self.reg.get_flag(Flag::C);
        if high_adjust {
            r = r.wrapping_add(0x60);
        }
        assert(r == if high_adjust { ((a1 + 0x60) % 256) as u8 } else { a1 });
        assert(r == daa8(a, self.reg.f).0);
        self.reg.f = Self::result_flags(r, low_adjust, high_adjust);
        self.reg.a = r;
    }

    /// F with the carry set to `c`.
    fn set_carry(&mut self, c: bool)
        ensures
            *final(self) == old(self).with_f(with_carry(old(self).reg.f, c)),
    {
        self.reg.f = (self.reg.f & 0xfe) | (if c { 1u8 } else { 0u8 });
    }

    /// RLC: rotates A left; C gets the old bit 7.
    fn alu_rlc(&mut self)
        ensures
            *final(self) == old(self).with_acc(
                (rlc8(old(self).reg.a).0, with_carry(old(self).reg.f, rlc8(old(self).reg.a).1)),
            ),
    {
        let a = self.reg.a;
        let c = bit::get(a, 7);
        let r = (a << 1) | (a >> 7);
        assert(r == rlc8(a).0 && bit_of(a, 7) == rlc8(a).1) by (bit_vector)
            requires
                r == (a << 1) | (a >> 7),
        ;
        self.set_carry(c);
        self.reg.a = r;
    }

    /// RRC: rotates A right; C gets the old bit 0.
    fn alu_rrc(&mut self)
        ensures
            *final(self) == old(self).with_acc(
                (rrc8(old(self).reg.a).0, with_carry(old(self).reg.f, rrc8(old(self).reg.a).1)),
            ),
    {
        let a = self.reg.a;
        let c = bit::get(a, 0);
        let r = (a >> 1) | (a << 7);
        assert(r == rrc8(a).0 && bit_of(a, 0) == rrc8(a).1) by (bit_vector)
            requires
                r == (a >> 1) | (a << 7),
        ;
        self.set_carry(c);
        self.reg.a = r;
    }

    /// RAL: rotates A left through C.
    fn alu_ral(&mut self)
        ensures
            *final(self) == old(self).with_acc(
                (
                    ral8(old(self).reg.a, carry_of(old(self).reg.f)).0,
                    with_carry(old(self).reg.f, ral8(old(self).reg.a, carry_of(old(self).reg.f)).1),
                ),
            ),
    {
        let a = self.reg.a;
        let c = bit::get(a, 7);
        let old_c = self.reg.get_flag(Flag::C);
        let ci: u8 = if old_c { 1 } else { 0 };
        let r = (a << 1) | ci;
        assert(r == ral8(a, old_c).0 && bit_of(a, 7) == ral8(a, old_c).1) by (bit_vector)
            requires
                r == (a << 1) | ci,
                ci == (if old_c { 1u8 } else { 0u8 }),
        ;
        self.set_carry(c);
        self.reg.a = r;
    }

    /// RAR: rotates A right through C.
    fn alu_rar(&mut self)
        ensures
            *final(self) == old(self).with_acc(
                (
                    rar8(old(self).reg.a, carry_of(old(self).reg.f)).0,
                    with_carry(old(self).reg.f, rar8(old(self).reg.a, carry_of(old(self).reg.f)).1),
                ),
            ),
    {
        let a = self.reg.a;
        let c = bit::get(a, 0);
        let old_c = self.reg.get_flag(Flag::C);
        let r = if old_c { 0x80 | (a >> 1) } else { a >> 1 };
        assert(r == rar8(a, old_c).0 && bit_of(a, 0) == rar8(a, old_c).1) by (bit_vector)
            requires
                r == (if old_c { 0x80 | (a >> 1) } else { a >> 1 }),
        ;
        self.set_carry(c);
        self.reg.a = r;
    }

    /// DAD: HL + `n` into HL; C is the carry out of bit 15.
    fn alu_dad(&mut self, n: u16)
        ensures
            *final(self) == (Cpu {
                reg: Register {
                    f: with_carry(old(self).reg.f, old(self).reg.hl() + n > 0xFFFF),
                    ..write16(old(self).reg, 2, add16(old(self).reg.hl(), n as int))
                },
                ..*old(self)
            }),
    {
        let a = self.reg.get_hl();
        let r = a.wrapping_add(n);
        let c = a as u32 + n as u32 > 0xffff;
        self.reg.set_hl(r);
        self.set_carry(c);
    }

    /// Pair `p` of PUSH: BC, DE, HL, AF.
    fn get_stacked(&self, p: u8) -> (v: u16)
        ensures
            v == read_stacked(self.reg, p),
    {
        if p == 3 {
            self.reg.get_af()
        } else {
            self.get_rp(p)
        }
    }

    /// Writes pair `p` of POP.
    fn set_stacked(&mut self, p: u8, v: u16)
        requires
            old(self).wf(),
        ensures
            final(self).wf(),
            final(self)@ == old(self)@.with_reg(write_stacked(old(self).reg, p, v)),
    {
        if p == 3 {
            self.reg.set_af(v);
        } else {
            self.set_rp(p, v);
        }
    }

    /// Opcodes 0x00..0x3F, with PC past the opcode.
    fn exec_low(&mut self, op: u8) -> (cycles: u32)
        requires
            old(self).wf(),
            op < 64,
        ensures
            final(self).wf(),
            (final(self)@, cycles) == execute_low(op, old(self)@),
    {
        let z = op % 8;
        if z == 0 {
            4
        } else if z == 2 {
            self.exec_load_store(op)
        } else if z <= 3 {
            self.exec_pair(op)
        } else if z <= 6 {
            self.exec_unary(op)
        } else {
            self.exec_accumulator(op)
        }
    }

    /// LXI, DAD, INX and DCX.
    fn exec_pair(&mut self, op: u8) -> (cycles: u32)
        requires
            old(self).wf(),
            op < 64,
            op % 8 == 1 || op % 8 == 3,
        ensures
            final(self).wf(),
            (final(self)@, cycles) == execute_low(op, old(self)@),
    {
        let y = (op / 8) % 8;
        let z = op % 8;
        let p = y / 2;
        let q = y % 2;
        if z == 1 {
            if q == 0 {
                let v = self.imm_dw();
                self.set_rp(p, v);
            } else {
                let v = self.get_rp(p);
                self.alu_dad(v);
            }
            10
        } else {
            let v = self.get_rp(p);
            let w = if q == 0 {
                v.wrapping_add(1)
            } else {
                v.wrapping_sub(1)
            };
            self.set_rp(p, w);
            5
        }
    }

    /// STAX, LDAX, SHLD, LHLD, STA and LDA.
    fn exec_load_store(&mut self, op: u8) -> (cycles: u32)
        requires
            old(self).wf(),
            op < 64,
            op % 8 == 2,
        ensures
            final(self).wf(),
            (final(self)@, cycles) == execute_low(op, old(self)@),
    {
        let y = (op / 8) % 8;
        let p = y / 2;
        let q = y % 2;
        if p <= 1 {
            let addr = if p == 0 {
                self.reg.get_bc()
            } else {
                self.reg.get_de()
            };
            if q == 0 {
                let a = self.reg.a;
                self.mem.set(addr, a);
            } else {
                self.reg.a = self.mem.get(addr);
            }
            7
        } else {
            let addr = self.imm_dw();
            if p == 2 && q == 0 {
                let hl = self.reg.get_hl();
                self.mem.set_word(addr, hl);
                16
            } else if p == 2 {
                let v = self.mem.get_word(addr);
                self.reg.set_hl(v);
                16
            } else if q == 0 {
                let a = self.reg.a;
                self.mem.set(addr, a);
                13
            } else {
                self.reg.a = self.mem.get(addr);
                13
            }
        }
    }

    /// INR, DCR and MVI on a register or M.
    fn exec_unary(&mut self, op: u8) -> (cycles: u32)
        requires
            old(self).wf(),
            op < 64,
            4 <= op % 8 <= 6,
        ensures
            final(self).wf(),
            (final(self)@, cycles) == execute_low(op, old(self)@),
    {
        let y = (op / 8) % 8;
        let z = op % 8;
        if z == 4 {
            let n = self.get_r(y);
            let r = self.alu_inr(n);
            self.set_r(y, r);
            if y == 6 {
                10
            } else {
                5
            }
        } else if z == 5 {
            let n = self.get_r(y);
            let r = self.alu_dcr(n);
            self.set_r(y, r);
            if y == 6 {
                10
            } else {
                5
            }
        } else {
            let v = self.imm_ds();
            self.set_r(y, v);
            if y == 6 {
                10
            } else {
                7
            }
        }
    }

    /// The rotates, DAA, CMA, STC and CMC.
    fn exec_accumulator(&mut self, op: u8) -> (cycles: u32)
        requires
            old(self).wf(),
            op < 64,
            op % 8 == 7,
        ensures
            final(self).wf(),
            (final(self)@, cycles) == execute_low(op, old(self)@),
    {
        let y = (op / 8) % 8;
        match y {
            0 => self.alu_rlc(),
            1 => self.alu_rrc(),
            2 => self.alu_ral(),
            3 => self.alu_rar(),
            4 => self.alu_daa(),
            5 => self.reg.a = !self.reg.a,
            6 => self.set_carry(true),
            _ => {
                let c = self.reg.get_flag(Flag::C);
                self.set_carry(!c);
            },
        }
        4
    }

    /// Opcodes 0x40..0x7F: MOV, and HLT.
    fn exec_mov(&mut self, op: u8) -> (cycles: u32)
        requires
            old(self).wf(),
            64 <= op < 128,
        ensures
            final(self).wf(),
            (final(self)@, cycles) == execute_mov(op, old(self)@),
    {
        let y = (op / 8) % 8;
        let z = op % 8;
        if y == 6 && z == 6 {
            self.halted = true;
            7
        } else {
            let v = self.get_r(z);
            self.set_r(y, v);
            if y == 6 || z == 6 {
                7
            } else {
                5
            }
        }
    }

    /// Opcodes 0x80..0xBF: ALU operations on a register or M.
    fn exec_alu(&mut self, op: u8) -> (cycles: u32)
        requires
            old(self).wf(),
            128 <= op < 192,
        ensures
            final(self).wf(),
            (final(self)@, cycles) == execute_alu(op, old(self)@),
    {
        let y = (op / 8) % 8;
        let z = op % 8;
        let n = self.get_r(z);
        self.alu(y, n);
        if z == 6 {
            7
        } else {
            4
        }
    }

    /// Opcodes 0xC0..0xFF: stack, control flow, immediate ALU and the ports; IN reads
    /// `input`.
    fn exec_high(&mut self, op: u8, input: u8) -> (cycles: u32)
        requires
            old(self).wf(),
            192 <= op,
        ensures
            final(self).wf(),
            (final(self)@, cycles) == execute_high(op, old(self)@, input),
    {
        let y = (op / 8) % 8;
        let z = op % 8;
        let p = y / 2;
        let q = y % 2;
        if z == 0 {
            if self.cond(y) {
                let a = self.stack_pop();
                self.reg.pc = a;
            }
            5
        } else if z == 1 {
            if q == 0 {
                let v = self.stack_pop();
                self.set_stacked(p, v);
                10
            } else if p <= 1 {
                let a = self.stack_pop();
                self.reg.pc = a;
                10
            } else if p == 2 {
                self.reg.pc = self.reg.get_hl();
                5
            } else {
                self.reg.sp = self.reg.get_hl();
                5
            }
        } else if z == 2 {
            let a = self.imm_dw();
            if self.cond(y) {
                self.reg.pc = a;
            }
            10
        } else if z == 3 {
            if y <= 1 {
                let a = self.imm_dw();
                self.reg.pc = a;
                10
            } else if y == 2 {
                self.imm_ds();
                10
            } else if y == 3 {
                self.imm_ds();
                self.reg.a = input;
                10
            } else if y == 4 {
                let sp = self.reg.sp;
                let v = self.mem.get_word(sp);
                let hl = self.reg.get_hl();
                self.reg.set_hl(v);
                self.mem.set_word(sp, hl);
                18
            } else if y == 5 {
                let h = self.reg.h;
                let l = self.reg.l;
                self.reg.h = self.reg.d;
                self.reg.l = self.reg.e;
                self.reg.d = h;
                self.reg.e = l;
                5
            } else if y == 6 {
                self.ei = false;
                4
            } else {
                self.ei = true;
                4
            }
        } else if z == 4 {
            let a = self.imm_dw();
            if self.cond(y) {
                let pc = self.reg.pc;
                self.stack_add(pc);
                self.reg.pc = a;
                17
            } else {
                11
            }
        } else if z == 5 {
            if q == 0 {
                let v = self.get_stacked(p);
                self.stack_add(v);
                11
            } else {
                let a = self.imm_dw();
                let pc = self.reg.pc;
                self.stack_add(pc);
                self.reg.pc = a;
                17
            }
        } else if z == 6 {
            let n = self.imm_ds();
            self.alu(y, n);
            7
        } else {
            let pc = self.reg.pc;
            self.stack_add(pc);
            self.reg.pc = (y * 8) as u16;
            11
        }
    }

    /// The port and byte that the instruction at PC writes, if it is OUT.
    fn out_request(&self) -> (r: Option<(u8, u8)>)
        requires
            self.wf(),
        ensures
            r == output(self@),
    {
        if !self.halted && alias(self.mem.get(self.reg.pc)) == 0xd3 {
            Some((self.mem.get(self.reg.pc.wrapping_add(1)), self.reg.a))
        } else {
            None
        }
    }

    /// The port that the instruction at PC reads, if it is IN.
    fn in_request(&self) -> (r: Option<u8>)
        requires
            self.wf(),
        ensures
            r == input_port(self@),
    {
        if !self.halted && alias(self.mem.get(self.reg.pc)) == 0xdb {
            Some(self.mem.get(self.reg.pc.wrapping_add(1)))
        } else {
            None
        }
    }

    /// Executes one instruction, with `input` as the byte that IN reads. Returns the
    /// machine cycles it took and, for OUT, the port and the byte written to it. A halted
    /// processor fetches nothing and reports the cost of a NOP.
    pub fn next_io(&mut self, input: u8) -> (r: (u32, Option<(u8, u8)>))
        requires
            old(self).wf(),
        ensures
            final(self).wf(),
            (final(self)@, r.0) == step(old(self)@, input),
            r.1 == output(old(self)@),
    {
        proof {
            reveal(execute);
        }
        let out = self.out_request();
        if self.halted {
            return (4, out);
        }
        let op = alias(self.imm_ds());
        let cycles = if op < 64 {
            self.exec_low(op)
        } else if op < 128 {
            self.exec_mov(op)
        } else if op < 192 {
            self.exec_alu(op)
        } else {
            self.exec_high(op, input)
        };
        (cycles, out)
    }

    /// Executes one instruction with the ports on `dev` and returns the machine cycles
    /// it took. IN reads its byte from `dev.pmo`, so the step is the one for the byte
    /// that ends in A; OUT hands its port and byte to `dev.pmi`.
    pub fn next_with<D: Device>(&mut self, dev: &mut D) -> (cycles: u32)
        requires
            old(self).wf(),
        ensures
            final(self).wf(),
            (final(self)@, cycles) == step(old(self)@, final(self).reg.a),
    {
        let input = match self.in_request() {
            Some(port) => dev.pmo(port),
            None => 0xff,
        };
        let (cycles, out) = self.next_io(input);
        proof {
            lemma_input_only_for_in(old(self)@, input, self.reg.a);
        }
        if let Some((port, v)) = out {
            dev.pmi(port, v);
        }
        cycles
    }

    /// Executes one instruction with nothing on the ports: IN reads 0xFF, the value of
    /// an undriven bus, and OUT goes nowhere. Returns the machine cycles it took.
    pub fn next(&mut self) -> (cycles: u32)
        requires
            old(self).wf(),
        ensures
            final(self).wf(),
            (final(self)@, cycles) == step(old(self)@, 0xFF),
    {
        self.next_io(0xff).0
    }

    /// Interrupt injection: when interrupts are enabled, PC is pushed and execution
    /// continues at vector `n` (address 8 * `n`), as RST `n` does, and a halted processor
    /// resumes. Returns whether the interrupt was taken; if not, nothing changes.
    pub fn interrupt(&mut self, n: u8) -> (taken: bool)
        requires
            old(self).wf(),
            n < 8,
        ensures
            final(self).wf(),
            taken == old(self).ei,
            final(self)@ == if taken {
                Machine { halted: false, ..old(self)@.push(old(self).reg.pc).jump((n * 8) as u16) }
            } else {
                old(self)@
            },
    {
        if !self.ei {
            return false;
        }
        let pc = self.reg.pc;
        self.stack_add(pc);
        self.reg.pc = n as u16 * 8;
        self.halted = false;
        true
    }
} // impl

/// The opcode that `op` executes as: undocumented opcodes run as their documented twins.
fn alias(op: u8) -> (r: u8)
    ensures
        r == canonical(op),
{
    match op {
        0x08 | 0x10 | 0x18 | 0x20 | 0x28 | 0x30 | 0x38 => 0x00,
        0xcb => 0xc3,
        0xd9 => 0xc9,
        0xdd | 0xed | 0xfd => 0xcd,
        _ => op,
    }
}

} // verus!
