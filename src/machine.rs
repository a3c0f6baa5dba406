//! The meaning of one instruction: a model of the processor as registers, memory and
//! latches, and the state that each opcode leads to.
use vstd::prelude::*;

use crate::alu::{alu8, carry_of, daa8, dec8, inc8, ral8, rar8, rlc8, rrc8, with_carry};
use crate::bit::bit_of;
use crate::memory::{word_at, write_word};
use crate::register::{high, low, mask_flags, Register};

verus! {

/// The architectural state: the registers, the 65,536 memory cells, and the halt and
/// interrupt-enable latches.
pub ghost struct Machine {
    pub reg: Register,
    pub mem: Seq<u8>,
    pub halted: bool,
    pub ei: bool,
}

/// `a` advanced by `n`, modulo 65,536.
pub open spec fn add16(a: u16, n: int) -> u16 {
    ((a + n) % 0x10000) as u16
}

/// The opcode that `op` executes as: the undocumented opcodes alias documented ones.
pub open spec fn canonical(op: u8) -> u8 {
    if op == 0x08 || op == 0x10 || op == 0x18 || op == 0x20 || op == 0x28 || op == 0x30 || op == 0x38 {
        0x00
    } else if op == 0xCB {
        0xC3
    } else if op == 0xD9 {
        0xC9
    } else if op == 0xDD || op == 0xED || op == 0xFD {
        0xCD
    } else {
        op
    }
}

/// Bits 7..6 of an opcode.
pub open spec fn op_x(op: u8) -> u8 {
    op / 64
}

/// Bits 5..3 of an opcode: a destination register, an ALU operation or a condition.
pub open spec fn op_y(op: u8) -> u8 {
    (op / 8) % 8
}

/// Bits 2..0 of an opcode: a source register.
pub open spec fn op_z(op: u8) -> u8 {
    op % 8
}

impl Machine {
    pub open spec fn with_reg(self, reg: Register) -> Machine {
        Machine { reg, ..self }
    }

    /// PC advanced by `n` bytes.
    pub open spec fn advance(self, n: int) -> Machine {
        self.with_reg(Register { pc: add16(self.reg.pc, n), ..self.reg })
    }

    /// The byte at PC.
    pub open spec fn imm8(self) -> u8 {
        self.mem[self.reg.pc as int]
    }

    /// The little-endian word at PC.
    pub open spec fn imm16(self) -> u16 {
        word_at(self.mem, self.reg.pc)
    }

    /// Operand slot `r` of an opcode: B, C, D, E, H, L, M (the byte at HL), A.
    pub open spec fn read8(self, r: u8) -> u8 {
        if r == 0 {
            self.reg.b
        } else if r == 1 {
            self.reg.c
        } else if r == 2 {
            self.reg.d
        } else if r == 3 {
            self.reg.e
        } else if r == 4 {
            self.reg.h
        } else if r == 5 {
            self.reg.l
        } else if r == 6 {
            self.mem[self.reg.hl() as int]
        } else {
            self.reg.a
        }
    }

    /// The machine with operand slot `r` set to `v`.
    pub open spec fn write8(self, r: u8, v: u8) -> Machine {
        if r == 0 {
            self.with_reg(Register { b: v, ..self.reg })
        } else if r == 1 {
            self.with_reg(Register { c: v, ..self.reg })
        } else if r == 2 {
            self.with_reg(Register { d: v, ..self.reg })
        } else if r == 3 {
            self.with_reg(Register { e: v, ..self.reg })
        } else if r == 4 {
            self.with_reg(Register { h: v, ..self.reg })
        } else if r == 5 {
            self.with_reg(Register { l: v, ..self.reg })
        } else if r == 6 {
            Machine { mem: self.mem.update(self.reg.hl() as int, v), ..self }
        } else {
            self.with_reg(Register { a: v, ..self.reg })
        }
    }

    /// The machine with A and F set to the pair given.
    pub open spec fn with_acc(self, af: (u8, u8)) -> Machine {
        self.with_reg(Register { a: af.0, f: af.1, ..self.reg })
    }

    pub open spec fn with_f(self, f: u8) -> Machine {
        self.with_reg(Register { f, ..self.reg })
    }

    /// SP lowered by two and `v` written at the new SP.
    pub open spec fn push(self, v: u16) -> Machine {
        let sp = add16(self.reg.sp, -2);
        Machine { reg: Register { sp, ..self.reg }, mem: write_word(self.mem, sp, v), ..self }
    }

    /// The word at SP.
    pub open spec fn top(self) -> u16 {
        word_at(self.mem, self.reg.sp)
    }

    /// SP raised by two.
    pub open spec fn drop2(self) -> Machine {
        self.with_reg(Register { sp: add16(self.reg.sp, 2), ..self.reg })
    }

    /// The machine with PC set to `a`.
    pub open spec fn jump(self, a: u16) -> Machine {
        self.with_reg(Register { pc: a, ..self.reg })
    }
}

/// Register pair `p` of LXI, DAD, INX and DCX: BC, DE, HL, SP.
pub open spec fn read16(reg: Register, p: u8) -> u16 {
    if p == 0 {
        reg.bc()
    } else if p == 1 {
        reg.de()
    } else if p == 2 {
        reg.hl()
    } else {
        reg.sp
    }
}

pub open spec fn write16(reg: Register, p: u8, v: u16) -> Register {
    if p == 0 {
        Register { b: high(v), c: low(v), ..reg }
    } else if p == 1 {
        Register { d: high(v), e: low(v), ..reg }
    } else if p == 2 {
        Register { h: high(v), l: low(v), ..reg }
    } else {
        Register { sp: v, ..reg }
    }
}

/// Register pair `p` of PUSH and POP: BC, DE, HL, AF.
pub open spec fn read_stacked(reg: Register, p: u8) -> u16 {
    if p == 3 {
        reg.af()
    } else {
        read16(reg, p)
    }
}

/// Writing pair `p` of POP; AF keeps the F invariant.
pub open spec fn write_stacked(reg: Register, p: u8, v: u16) -> Register {
    if p == 3 {
        Register { a: high(v), f: mask_flags(low(v)), ..reg }
    } else {
        write16(reg, p, v)
    }
}

/// Condition `cc` on flags `f`: NZ, Z, NC, C, PO, PE, P, M.
pub open spec fn condition(f: u8, cc: u8) -> bool {
    let flag = if cc / 2 == 0 {
        bit_of(f, 6)
    } else if cc / 2 == 1 {
        bit_of(f, 0)
    } else if cc / 2 == 2 {
        bit_of(f, 2)
    } else {
        bit_of(f, 7)
    };
    if cc % 2 == 0 {
        !flag
    } else {
        flag
    }
}

/// Opcodes 0x00..0x3F, with PC past the opcode: the next state and the cycles.
pub open spec fn execute_low(op: u8, m: Machine) -> (Machine, u32) {
    let y = op_y(op);
    let z = op_z(op);
    let p = y / 2;
    let q = y % 2;
    if z == 0 {
        (m, 4)
    } else if z == 1 {
        if q == 0 {
            // LXI
            let v = m.imm16();
            let m1 = m.advance(2);
            (m1.with_reg(write16(m1.reg, p, v)), 10)
        } else {
            // DAD
            let hl = m.reg.hl();
            let v = read16(m.reg, p);
            let reg = write16(m.reg, 2, add16(hl, v as int));
            (m.with_reg(Register { f: with_carry(m.reg.f, hl + v > 0xFFFF), ..reg }), 10)
        }
    } else if z == 2 {
        if p == 0 || p == 1 {
            let addr = if p == 0 {
                m.reg.bc()
            } else {
                m.reg.de()
            };
            if q == 0 {
                // STAX
                (Machine { mem: m.mem.update(addr as int, m.reg.a), ..m }, 7)
            } else {
                // LDAX
                (m.with_reg(Register { a: m.mem[addr as int], ..m.reg }), 7)
            }
        } else {
            let addr = m.imm16();
            let m1 = m.advance(2);
            if p == 2 && q == 0 {
                // SHLD
                (Machine { mem: write_word(m1.mem, addr, m1.reg.hl()), ..m1 }, 16)
            } else if p == 2 {
                // LHLD
                (m1.with_reg(write16(m1.reg, 2, word_at(m1.mem, addr))), 16)
            } else if q == 0 {
                // STA
                (Machine { mem: m1.mem.update(addr as int, m1.reg.a), ..m1 }, 13)
            } else {
                // LDA
                (m1.with_reg(Register { a: m1.mem[addr as int], ..m1.reg }), 13)
            }
        }
    } else if z == 3 {
        let v = read16(m.reg, p);
        let n = if q == 0 {
            1
        } else {
            -1
        };
        // INX, DCX
        (m.with_reg(write16(m.reg, p, add16(v, n))), 5)
    } else if z == 4 {
        // INR
        let (r, f) = inc8(m.read8(y), carry_of(m.reg.f));
        (m.write8(y, r).with_f(f), if y == 6 { 10 } else { 5 })
    } else if z == 5 {
        // DCR
        let (r, f) = dec8(m.read8(y), carry_of(m.reg.f));
        (m.write8(y, r).with_f(f), if y == 6 { 10 } else { 5 })
    } else if z == 6 {
        // MVI
        let v = m.imm8();
        (m.advance(1).write8(y, v), if y == 6 { 10 } else { 7 })
    } else {
        let a = m.reg.a;
        let f = m.reg.f;
        let m1 = if y == 0 {
            let (r, c) = rlc8(a);
            m.with_acc((r, with_carry(f, c)))
        } else if y == 1 {
            let (r, c) = rrc8(a);
            m.with_acc((r, with_carry(f, c)))
        } else if y == 2 {
            let (r, c) = ral8(a, carry_of(f));
            m.with_acc((r, with_carry(f, c)))
        } else if y == 3 {
            let (r, c) = rar8(a, carry_of(f));
            m.with_acc((r, with_carry(f, c)))
        } else if y == 4 {
            m.with_acc(daa8(a, f))
        } else if y == 5 {
            // CMA
            m.with_reg(Register { a: !a, ..m.reg })
        } else if y == 6 {
            // STC
            m.with_f(with_carry(f, true))
        } else {
            // CMC
            m.with_f(with_carry(f, !carry_of(f)))
        };
        (m1, 4)
    }
}

/// Opcodes 0x40..0x7F: MOV, and HLT at 0x76.
pub open spec fn execute_mov(op: u8, m: Machine) -> (Machine, u32) {
    let y = op_y(op);
    let z = op_z(op);
    if y == 6 && z == 6 {
        (Machine { halted: true, ..m }, 7)
    } else {
        (m.write8(y, m.read8(z)), if y == 6 || z == 6 { 7 } else { 5 })
    }
}

/// Opcodes 0x80..0xBF: an ALU operation on A and a register or M.
pub open spec fn execute_alu(op: u8, m: Machine) -> (Machine, u32) {
    let z = op_z(op);
    (m.with_acc(alu8(op_y(op), m.reg.a, m.read8(z), m.reg.f)), if z == 6 { 7 } else { 4 })
}

/// Opcodes 0xC0..0xFF. `input` is the byte that IN reads.
pub open spec fn execute_high(op: u8, m: Machine, input: u8) -> (Machine, u32) {
    let y = op_y(op);
    let z = op_z(op);
    let p = y / 2;
    let q = y % 2;
    let f = m.reg.f;
    if z == 0 {
        // Rcc
        if condition(f, y) {
            (m.drop2().jump(m.top()), 5)
        } else {
            (m, 5)
        }
    } else if z == 1 {
        if q == 0 {
            // POP
            (m.drop2().with_reg(write_stacked(m.drop2().reg, p, m.top())), 10)
        } else if p <= 1 {
            // RET
            (m.drop2().jump(m.top()), 10)
        } else if p == 2 {
            // PCHL
            (m.jump(m.reg.hl()), 5)
        } else {
            // SPHL
            (m.with_reg(Register { sp: m.reg.hl(), ..m.reg }), 5)
        }
    } else if z == 2 {
        // Jcc
        let a = m.imm16();
        let m1 = m.advance(2);
        (if condition(f, y) { m1.jump(a) } else { m1 }, 10)
    } else if z == 3 {
        if y <= 1 {
            // JMP
            (m.jump(m.imm16()), 10)
        } else if y == 2 {
            // OUT: the byte goes to the device
            (m.advance(1), 10)
        } else if y == 3 {
            // IN
            let m1 = m.advance(1);
            (m1.with_reg(Register { a: input, ..m1.reg }), 10)
        } else if y == 4 {
            // XTHL
            let v = m.top();
            (
                Machine {
                    reg: write16(m.reg, 2, v),
                    mem: write_word(m.mem, m.reg.sp, m.reg.hl()),
                    ..m
                },
                18,
            )
        } else if y == 5 {
            // XCHG
            (m.with_reg(Register { d: m.reg.h, e: m.reg.l, h: m.reg.d, l: m.reg.e, ..m.reg }), 5)
        } else if y == 6 {
            (Machine { ei: false, ..m }, 4)
        } else {
            (Machine { ei: true, ..m }, 4)
        }
    } else if z == 4 {
        // Ccc
        let a = m.imm16();
        let m1 = m.advance(2);
        if condition(f, y) {
            (m1.push(m1.reg.pc).jump(a), 17)
        } else {
            (m1, 11)
        }
    } else if z == 5 {
        if q == 0 {
            // PUSH
            (m.push(read_stacked(m.reg, p)), 11)
        } else {
            // CALL
            let a = m.imm16();
            let m1 = m.advance(2);
            (m1.push(m1.reg.pc).jump(a), 17)
        }
    } else if z == 6 {
        // ADI, ACI, SUI, SBI, ANI, XRI, ORI, CPI
        let n = m.imm8();
        (m.advance(1).with_acc(alu8(y, m.reg.a, n, f)), 7)
    } else {
        // RST
        (m.push(m.reg.pc).jump((y * 8) as u16), 11)
    }
}

/// The state after executing opcode `op`, with PC already past the opcode, and the
/// cycles that it takes. `input` is the byte that IN reads; no other instruction
/// depends on it.
#[verifier::opaque]
pub open spec fn execute(op: u8, m: Machine, input: u8) -> (Machine, u32) {
    let x = op_x(op);
    if x == 0 {
        execute_low(op, m)
    } else if x == 1 {
        execute_mov(op, m)
    } else if x == 2 {
        execute_alu(op, m)
    } else {
        execute_high(op, m, input)
    }
}

/// One step: a halted machine stays as it is for the cost of a NOP; otherwise the
/// opcode at PC is fetched, PC moves past it, and its canonical form is executed;
/// `input` is the byte that IN reads.
pub open spec fn step(m: Machine, input: u8) -> (Machine, u32) {
    if m.halted {
        (m, 4)
    } else {
        let op = canonical(m.mem[m.reg.pc as int]);
        execute(op, m.advance(1), input)
    }
}

/// The port that the next step reads, if its instruction is IN.
pub open spec fn input_port(m: Machine) -> Option<u8> {
    if !m.halted && canonical(m.mem[m.reg.pc as int]) == 0xDB {
        Some(m.mem[add16(m.reg.pc, 1) as int])
    } else {
        None
    }
}

/// The port and the byte that the next step writes, if its instruction is OUT.
pub open spec fn output(m: Machine) -> Option<(u8, u8)> {
    if !m.halted && canonical(m.mem[m.reg.pc as int]) == 0xD3 {
        Some((m.mem[add16(m.reg.pc, 1) as int], m.reg.a))
    } else {
        None
    }
}

/// Only IN depends on the byte read from the ports, and IN leaves that byte in A.
pub proof fn lemma_input_only_for_in(m: Machine, i: u8, j: u8)
    ensures
        input_port(m) is None ==> step(m, i) == step(m, j),
        input_port(m) is Some ==> step(m, i).0.reg.a == i,
{
    reveal(execute);
}

} // verus!
