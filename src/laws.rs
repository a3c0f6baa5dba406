//! Facts about every step of the machine, proved over the model that `Cpu::next`
//! follows.
use vstd::prelude::*;

use crate::alu::{carry_of, flag_byte, lemma_flag_byte, lemma_with_carry, ones, rlc8, rrc8, with_carry};
use crate::bit::bit_of;
use crate::machine::{add16, canonical, execute, op_x, op_y, op_z, read_stacked, step, write_stacked, Machine};
use crate::memory::{next_addr, word_at, write_word, SIZE};
use crate::register::{flags_ok, high, low, mask_flags, pair, Flag, Register};

verus! {

/// The machine after `n` steps.
pub open spec fn run(m: Machine, input: u8, n: nat) -> Machine
    decreases n,
{
    if n == 0 {
        m
    } else {
        run(step(m, input).0, input, (n - 1) as nat)
    }
}

/// Length in bytes of the instruction `op`: the opcode and its immediate operand.
pub open spec fn instr_len(op: u8) -> int {
    let x = op_x(op);
    let y = op_y(op);
    let z = op_z(op);
    if x == 0 {
        if (z == 1 && y % 2 == 0) || (z == 2 && y / 2 >= 2) {
            3
        } else if z == 6 {
            2
        } else {
            1
        }
    } else if x == 3 {
        if z == 2 || z == 4 || (z == 3 && y <= 1) || (z == 5 && y % 2 == 1) {
            3
        } else if z == 6 || (z == 3 && (y == 2 || y == 3)) {
            2
        } else {
            1
        }
    } else {
        1
    }
}

/// Whether `op` may set PC other than past itself: the jumps, calls and returns,
/// conditional or not, RST and PCHL.
pub open spec fn transfers_control(op: u8) -> bool {
    let y = op_y(op);
    let z = op_z(op);
    op_x(op) == 3 && (z == 0 || z == 2 || z == 4 || z == 7 || (z == 1 && y % 2 == 1 && y / 2
        <= 2) || (z == 3 && y <= 1) || (z == 5 && y % 2 == 1))
}

proof fn lemma_flag_bytes_ok()
    ensures
        forall|s: bool, z: bool, ac: bool, p: bool, c: bool| #[trigger]
            flags_ok(flag_byte(s, z, ac, p, c)),
        forall|f: u8, c: bool| flags_ok(f) ==> #[trigger] flags_ok(with_carry(f, c)),
        forall|x: u8| #[trigger] flags_ok(mask_flags(x)),
{
    assert forall|s: bool, z: bool, ac: bool, p: bool, c: bool|
        #[trigger] flags_ok(flag_byte(s, z, ac, p, c)) by {
        lemma_flag_byte(s, z, ac, p, c);
    }
    assert forall|f: u8, c: bool| flags_ok(f) implies #[trigger] flags_ok(with_carry(f, c)) by {
        lemma_with_carry(f, c);
    }
    assert forall|x: u8| #[trigger] flags_ok(mask_flags(x)) by {
        assert(flags_ok(mask_flags(x))) by (bit_vector);
    }
}

/// Every step keeps the invariant of F: bit 1 set, bits 3 and 5 clear.
pub proof fn lemma_step_keeps_flags(m: Machine, input: u8)
    requires
        flags_ok(m.reg.f),
    ensures
        flags_ok(step(m, input).0.reg.f),
{
    reveal(execute);
    lemma_flag_bytes_ok();
}

proof fn lemma_execute_pc(op: u8, m: Machine, input: u8)
    requires
        !transfers_control(op),
    ensures
        execute(op, m, input).0.reg.pc == add16(m.reg.pc, instr_len(op) - 1),
{
    reveal(execute);
    let x = op_x(op);
    let z = op_z(op);
    assert(add16(m.reg.pc, 0) == m.reg.pc);
    if x == 0 {
        if z == 0 {
        } else if z == 1 {
        } else if z == 2 {
        } else if z == 3 {
        } else if z == 4 {
        } else if z == 5 {
        } else if z == 6 {
        } else {
        }
    } else if x == 1 {
    } else if x == 2 {
    } else {
        if z == 1 {
        } else if z == 3 {
        } else if z == 5 {
        } else {
        }
    }
}

/// Unless the instruction transfers control, PC moves past it: by its length, modulo
/// 65,536. A halted machine keeps PC.
pub proof fn lemma_step_advances_pc(m: Machine, input: u8)
    ensures
        m.halted ==> step(m, input).0.reg.pc == m.reg.pc,
        !m.halted && !transfers_control(canonical(m.mem[m.reg.pc as int])) ==> step(m, input).0.reg.pc
            == add16(m.reg.pc, instr_len(canonical(m.mem[m.reg.pc as int]))),
{
    let op = canonical(m.mem[m.reg.pc as int]);
    if !m.halted && !transfers_control(op) {
        lemma_execute_pc(op, m.advance(1), input);
        let n = instr_len(op);
        assert(1 <= n <= 3);
        assert(add16(add16(m.reg.pc, 1), n - 1) == add16(m.reg.pc, n));
    }
}

/// Every step takes a positive number of cycles.
pub proof fn lemma_step_cycles_positive(m: Machine, input: u8)
    ensures
        step(m, input).1 > 0,
{
    reveal(execute);
}

proof fn lemma_pair_bytes(hi: u8, lo: u8)
    ensures
        high(pair(hi, lo)) == hi,
        low(pair(hi, lo)) == lo,
{
    assert(((hi as int * 256 + lo as int) as u16 / 256) as u8 == hi && ((hi as int * 256 + lo as int)
        as u16 % 256) as u8 == lo) by (bit_vector);
}

proof fn lemma_word_rewrite(mem: Seq<u8>, a: u16)
    requires
        mem.len() == SIZE,
    ensures
        write_word(mem, a, word_at(mem, a)) == mem,
{
    lemma_pair_bytes(mem[next_addr(a) as int], mem[a as int]);
    assert(write_word(mem, a, word_at(mem, a)) =~= mem);
}

proof fn lemma_step_pop(m: Machine, input: u8, p: u8)
    requires
        !m.halted,
        p < 4,
        m.mem[m.reg.pc as int] == 0xC1 + 16 * p,
    ensures
        step(m, input).0 == m.advance(1).drop2().with_reg(
            write_stacked(m.advance(1).drop2().reg, p, m.top()),
        ),
{
    reveal(execute);
    let op = (0xC1 + 16 * p) as u8;
    assert(op_x(op) == 3 && op_z(op) == 1 && op_y(op) == 2 * p && canonical(op) == op);
}

proof fn lemma_step_push(m: Machine, input: u8, p: u8)
    requires
        !m.halted,
        p < 4,
        m.mem[m.reg.pc as int] == 0xC5 + 16 * p,
    ensures
        step(m, input).0 == m.advance(1).push(read_stacked(m.reg, p)),
{
    reveal(execute);
    let op = (0xC5 + 16 * p) as u8;
    assert(op_x(op) == 3 && op_z(op) == 5 && op_y(op) == 2 * p && canonical(op) == op);
}

/// POP and then PUSH of the same pair leave memory as it was and SP where it was. For
/// AF the byte that F came from is left as F holds it: with its flags and the reserved
/// bit 1 only.
pub proof fn lemma_pop_push(m: Machine, input: u8, p: u8)
    requires
        m.mem.len() == SIZE,
        !m.halted,
        p < 4,
        m.mem[m.reg.pc as int] == 0xC1 + 16 * p,
        m.mem[add16(m.reg.pc, 1) as int] == 0xC5 + 16 * p,
    ensures
        step(step(m, input).0, input).0.reg.sp == m.reg.sp,
        step(step(m, input).0, input).0.mem == if p == 3 {
            m.mem.update(m.reg.sp as int, mask_flags(m.mem[m.reg.sp as int]))
        } else {
            m.mem
        },
{
    let sp = m.reg.sp;
    let v = word_at(m.mem, sp);
    lemma_pair_bytes(m.mem[next_addr(sp) as int], m.mem[sp as int]);
    lemma_pair_bytes(high(v), low(v));
    lemma_pair_bytes(high(v), mask_flags(low(v)));
    lemma_step_pop(m, input, p);
    let m0 = m.advance(1);
    let m1 = m0.drop2().with_reg(write_stacked(m0.drop2().reg, p, v));
    assert(m1.mem[m1.reg.pc as int] == 0xC5 + 16 * p);
    lemma_step_push(m1, input, p);
    let w = read_stacked(m1.reg, p);
    assert(add16(add16(sp, 2), -2) == sp);
    if p == 3 {
        assert(w == pair(high(v), mask_flags(low(v))));
        assert(write_word(m.mem, sp, w) =~= m.mem.update(sp as int, mask_flags(m.mem[sp as int])));
    } else {
        assert(w == v);
        lemma_word_rewrite(m.mem, sp);
    }
}

proof fn lemma_step_xchg(m: Machine, input: u8)
    requires
        !m.halted,
        m.mem[m.reg.pc as int] == 0xEB,
    ensures
        step(m, input).0 == m.advance(1).with_reg(
            Register { d: m.reg.h, e: m.reg.l, h: m.reg.d, l: m.reg.e, ..m.advance(1).reg },
        ),
{
    reveal(execute);
    assert(op_x(0xEB) == 3 && op_y(0xEB) == 5 && op_z(0xEB) == 3 && canonical(0xEB) == 0xEB);
}

/// XCHG twice leaves every register as it was but PC, which moves past both.
pub proof fn lemma_xchg_twice(m: Machine, input: u8)
    requires
        !m.halted,
        m.mem[m.reg.pc as int] == 0xEB,
        m.mem[add16(m.reg.pc, 1) as int] == 0xEB,
    ensures
        step(step(m, input).0, input).0.reg == (Register { pc: add16(m.reg.pc, 2), ..m.reg }),
        step(step(m, input).0, input).0.mem == m.mem,
{
    lemma_step_xchg(m, input);
    let m1 = step(m, input).0;
    assert(m1.mem[m1.reg.pc as int] == 0xEB);
    lemma_step_xchg(m1, input);
    assert(add16(add16(m.reg.pc, 1), 1) == add16(m.reg.pc, 2));
}

/// CMP and CPI keep A and the operand, and set the flags exactly as SUB and SUI do on
/// the same machine.
pub proof fn lemma_cmp_is_sub(m: Machine, input: u8, z: u8)
    requires
        z < 8,
    ensures
        execute((0xB8 + z) as u8, m, input).0.reg.a == m.reg.a,
        execute((0xB8 + z) as u8, m, input).0.read8(z) == m.read8(z),
        execute((0xB8 + z) as u8, m, input).0.reg.f == execute((0x90 + z) as u8, m, input).0.reg.f,
        execute(0xFE, m, input).0.reg.a == m.reg.a,
        execute(0xFE, m, input).0.reg.f == execute(0xD6, m, input).0.reg.f,
{
    reveal(execute);
    let cmp = (0xB8 + z) as u8;
    let sub = (0x90 + z) as u8;
    assert(op_x(cmp) == 2 && op_y(cmp) == 7 && op_z(cmp) == z);
    assert(op_x(sub) == 2 && op_y(sub) == 2 && op_z(sub) == z);
    assert(op_x(0xFE) == 3 && op_y(0xFE) == 7 && op_z(0xFE) == 6);
    assert(op_x(0xD6) == 3 && op_y(0xD6) == 2 && op_z(0xD6) == 6);
}

/// XRA A clears A and sets the parity flag: zero has even parity.
pub proof fn lemma_xra_self(m: Machine, input: u8)
    requires
        !m.halted,
        m.mem[m.reg.pc as int] == 0xAF,
    ensures
        step(m, input).0.reg.a == 0,
        step(m, input).0.reg.flag(Flag::P),
{
    reveal(execute);
    let a = m.reg.a;
    assert(a ^ a == 0) by (bit_vector);
    assert(ones(0) == 0);
    lemma_flag_byte(false, true, false, true, false);
    assert(bit_of(0u8, 7) == false) by (bit_vector);
}

/// A rotated once by RLC (`op` 0x07) or by RRC (otherwise).
pub open spec fn rotate(op: u8, a: u8) -> (u8, bool) {
    if op == 0x07 {
        rlc8(a)
    } else {
        rrc8(a)
    }
}

/// A rotated `k` times.
pub open spec fn rotate_n(op: u8, a: u8, k: nat) -> u8
    decreases k,
{
    if k == 0 {
        a
    } else {
        rotate_n(op, rotate(op, a).0, (k - 1) as nat)
    }
}

proof fn lemma_step_rotate(m: Machine, input: u8, op: u8)
    requires
        !m.halted,
        op == 0x07 || op == 0x0F,
        m.mem[m.reg.pc as int] == op,
    ensures
        step(m, input).0 == m.advance(1).with_acc(
            (rotate(op, m.reg.a).0, with_carry(m.reg.f, rotate(op, m.reg.a).1)),
        ),
{
    reveal(execute);
}

proof fn lemma_run_rotate(m: Machine, input: u8, op: u8, k: nat)
    requires
        !m.halted,
        op == 0x07 || op == 0x0F,
        forall|i: int| 0 <= i < k ==> m.mem[#[trigger] add16(m.reg.pc, i) as int] == op,
    ensures
        run(m, input, k).reg.a == rotate_n(op, m.reg.a, k),
        k > 0 ==> carry_of(run(m, input, k).reg.f) == rotate(op, rotate_n(op, m.reg.a, (k - 1) as nat)).1,
    decreases k,
{
    if k > 0 {
        assert(m.mem[add16(m.reg.pc, 0) as int] == op);
        assert(add16(m.reg.pc, 0) == m.reg.pc);
        lemma_step_rotate(m, input, op);
        let m1 = step(m, input).0;
        let r = rotate(op, m.reg.a);
        lemma_with_carry(m.reg.f, r.1);
        assert forall|i: int| 0 <= i < k - 1 implies m1.mem[#[trigger] add16(m1.reg.pc, i) as int]
            == op by {
            assert(add16(m1.reg.pc, i) == add16(m.reg.pc, i + 1));
            assert(m.mem[add16(m.reg.pc, i + 1) as int] == op);
        }
        lemma_run_rotate(m1, input, op, (k - 1) as nat);
    }
}

/// Eight RLC in a row give A back, with the carry holding bit 0 of the starting A;
/// eight RRC give A back, with the carry holding its bit 7.
pub proof fn lemma_rotate_eight(m: Machine, input: u8, op: u8)
    requires
        !m.halted,
        op == 0x07 || op == 0x0F,
        forall|i: int| 0 <= i < 8 ==> m.mem[#[trigger] add16(m.reg.pc, i) as int] == op,
    ensures
        run(m, input, 8).reg.a == m.reg.a,
        run(m, input, 8).reg.flag(Flag::C) == if op == 0x07 {
            bit_of(m.reg.a, 0)
        } else {
            bit_of(m.reg.a, 7)
        },
{
    lemma_run_rotate(m, input, op, 8);
    let a = m.reg.a;
    reveal_with_fuel(rotate_n, 9);
    if op == 0x07 {
        assert(rlc8(rlc8(rlc8(rlc8(rlc8(rlc8(rlc8(rlc8(a).0).0).0).0).0).0).0).0 == a
            && rlc8(rlc8(rlc8(rlc8(rlc8(rlc8(rlc8(rlc8(a).0).0).0).0).0).0).0).1 == bit_of(a, 0))
            by (bit_vector);
    } else {
        assert(rrc8(rrc8(rrc8(rrc8(rrc8(rrc8(rrc8(rrc8(a).0).0).0).0).0).0).0).0 == a
            && rrc8(rrc8(rrc8(rrc8(rrc8(rrc8(rrc8(rrc8(a).0).0).0).0).0).0).0).1 == bit_of(a, 7))
            by (bit_vector);
    }
}

} // verus!
