//! The arithmetic and logic of the accumulator: results and the flags they produce.
use vstd::prelude::*;

use crate::bit::bit_of;
use crate::register::flags_ok;

verus! {

/// Number of one bits in `x`.
pub open spec fn ones(x: u8) -> nat
    decreases x,
{
    if x == 0 {
        0
    } else {
        (x % 2) as nat + ones((x / 2) as u8)
    }
}

/// Even parity: the XOR of the eight bits of `x` is zero.
pub open spec fn even_parity(x: u8) -> bool {
    ones(x) % 2 == 0
}

/// The F byte holding the flags given, with bit 1 set and bits 3 and 5 clear.
pub open spec fn flag_byte(s: bool, z: bool, ac: bool, p: bool, c: bool) -> u8 {
    (if s { 0x80u8 } else { 0u8 }) | (if z { 0x40u8 } else { 0u8 }) | (if ac { 0x10u8 } else { 0u8 })
        | (if p { 0x04u8 } else { 0u8 }) | 0x02u8 | (if c { 0x01u8 } else { 0u8 })
}

/// F after an operation with result `r`: S, Z and P follow `r`; A and C are given.
pub open spec fn result_flags(r: u8, ac: bool, c: bool) -> u8 {
    flag_byte(bit_of(r, 7), r == 0, ac, even_parity(r), c)
}

/// The carry flag of F.
pub open spec fn carry_of(f: u8) -> bool {
    bit_of(f, 0)
}

/// The auxiliary carry flag of F.
pub open spec fn aux_of(f: u8) -> bool {
    bit_of(f, 4)
}

/// `f` with the carry flag replaced by `c` and every other bit kept.
pub open spec fn with_carry(f: u8, c: bool) -> u8 {
    (f & 0xFEu8) | (if c { 1u8 } else { 0u8 })
}

pub open spec fn carry_in(c: bool) -> int {
    if c {
        1
    } else {
        0
    }
}

/// ADD and ADC: `a + n + c`, with its F.
pub open spec fn sum8(a: u8, n: u8, c: bool) -> (u8, u8) {
    let t = a + n + carry_in(c);
    let r = (t % 256) as u8;
    (r, result_flags(r, (a & 0x0Fu8) + (n & 0x0Fu8) + carry_in(c) > 0x0F, t > 0xFF))
}

/// SUB and SBB: `a - n - c` modulo 256, with its F. The auxiliary carry is the carry out
/// of bit 3 of `a + !n + (1 - c)`, the addition that the part performs; C is the borrow.
pub open spec fn diff8(a: u8, n: u8, c: bool) -> (u8, u8) {
    let t = a - n - carry_in(c);
    let r = (t % 256) as u8;
    (r, result_flags(r, (a & 0x0Fu8) + (!n & 0x0Fu8) + 1 - carry_in(c) > 0x0F, a < n + carry_in(c)))
}

/// ANA: `a & n`; the auxiliary carry is bit 3 of `a | n`, C is cleared.
pub open spec fn and8(a: u8, n: u8) -> (u8, u8) {
    let r = a & n;
    (r, result_flags(r, (a | n) & 0x08u8 != 0, false))
}

/// XRA: `a ^ n`; A and C are cleared.
pub open spec fn xor8(a: u8, n: u8) -> (u8, u8) {
    let r = a ^ n;
    (r, result_flags(r, false, false))
}

/// ORA: `a | n`; A and C are cleared.
pub open spec fn or8(a: u8, n: u8) -> (u8, u8) {
    let r = a | n;
    (r, result_flags(r, false, false))
}

/// The accumulator operation selected by bits 5..3 of an ALU opcode, on A = `a`,
/// operand `n` and flags `f`: the new A and the new F.
pub open spec fn alu8(op: u8, a: u8, n: u8, f: u8) -> (u8, u8) {
    if op == 0 {
        sum8(a, n, false)
    } else if op == 1 {
        sum8(a, n, carry_of(f))
    } else if op == 2 {
        diff8(a, n, false)
    } else if op == 3 {
        diff8(a, n, carry_of(f))
    } else if op == 4 {
        and8(a, n)
    } else if op == 5 {
        xor8(a, n)
    } else if op == 6 {
        or8(a, n)
    } else {
        (a, diff8(a, n, false).1)
    }
}

/// INR: `n + 1` modulo 256, with its F; the carry `c` is kept.
pub open spec fn inc8(n: u8, c: bool) -> (u8, u8) {
    let r = ((n + 1) % 256) as u8;
    (r, result_flags(r, (n & 0x0Fu8) + 1 > 0x0F, c))
}

/// DCR: `n - 1` modulo 256, with its F; the carry `c` is kept.
pub open spec fn dec8(n: u8, c: bool) -> (u8, u8) {
    let r = ((n + 255) % 256) as u8;
    (r, result_flags(r, (n & 0x0Fu8) != 0, c))
}

/// DAA on A = `a` with flags `f`: the adjusted A and its F.
pub open spec fn daa8(a: u8, f: u8) -> (u8, u8) {
    let low_adjust = (a & 0x0Fu8) > 9 || aux_of(f);
    let a1 = if low_adjust {
        ((a + 6) % 256) as u8
    } else {
        a
    };
    let high_adjust = a1 > 0x9F || carry_of(f);
    let a2 = if high_adjust {
        ((a1 + 0x60) % 256) as u8
    } else {
        a1
    };
    (a2, result_flags(a2, low_adjust, high_adjust))
}

/// RLC: A rotated left by one; the new carry is the old bit 7.
pub open spec fn rlc8(a: u8) -> (u8, bool) {
    (((a * 2) % 256 + a / 128) as u8, a >= 128)
}

/// RRC: A rotated right by one; the new carry is the old bit 0.
pub open spec fn rrc8(a: u8) -> (u8, bool) {
    ((a / 2 + (a % 2) * 128) as u8, a % 2 == 1)
}

/// RAL: A rotated left through the carry `c`.
pub open spec fn ral8(a: u8, c: bool) -> (u8, bool) {
    (((a * 2) % 256 + carry_in(c)) as u8, a >= 128)
}

/// RAR: A rotated right through the carry `c`.
pub open spec fn rar8(a: u8, c: bool) -> (u8, bool) {
    ((a / 2 + carry_in(c) * 128) as u8, a % 2 == 1)
}

/// Reading back the flags of a flag byte, and the F invariant that it keeps.
pub proof fn lemma_flag_byte(s: bool, z: bool, ac: bool, p: bool, c: bool)
    ensures
        bit_of(flag_byte(s, z, ac, p, c), 7) == s,
        bit_of(flag_byte(s, z, ac, p, c), 6) == z,
        bit_of(flag_byte(s, z, ac, p, c), 4) == ac,
        bit_of(flag_byte(s, z, ac, p, c), 2) == p,
        bit_of(flag_byte(s, z, ac, p, c), 0) == c,
        flags_ok(flag_byte(s, z, ac, p, c)),
{
    let f = flag_byte(s, z, ac, p, c);
    assert(bit_of(f, 7) == s && bit_of(f, 6) == z && bit_of(f, 4) == ac && bit_of(f, 2) == p
        && bit_of(f, 0) == c && bit_of(f, 1) && !bit_of(f, 3) && !bit_of(f, 5)) by (bit_vector)
        requires
            f == flag_byte(s, z, ac, p, c),
    ;
}

/// Replacing the carry keeps the F invariant and the other flags.
pub proof fn lemma_with_carry(f: u8, c: bool)
    ensures
        carry_of(with_carry(f, c)) == c,
        forall|i: u8| 1 <= i < 8 ==> #[trigger] bit_of(with_carry(f, c), i) == bit_of(f, i),
        flags_ok(f) ==> flags_ok(with_carry(f, c)),
{
    let g = with_carry(f, c);
    assert(bit_of(g, 0) == c) by (bit_vector)
        requires
            g == with_carry(f, c),
    ;
    assert(forall|i: u8| 1 <= i < 8 ==> bit_of(g, i) == bit_of(f, i)) by (bit_vector)
        requires
            g == with_carry(f, c),
    ;
}

/// The F byte for the flags given.
pub fn pack_flags(s: bool, z: bool, ac: bool, p: bool, c: bool) -> (r: u8)
    ensures
        r == flag_byte(s, z, ac, p, c),
{
    (if s { 0x80u8 } else { 0u8 }) | (if z { 0x40u8 } else { 0u8 }) | (if ac { 0x10u8 } else { 0u8 })
        | (if p { 0x04u8 } else { 0u8 }) | 0x02u8 | (if c { 0x01u8 } else { 0u8 })
}

/// Whether `x` has an even number of one bits.
pub fn parity(x: u8) -> (r: bool)
    ensures
        r == even_parity(x),
{
    let mut v: u8 = x;
    let mut odd = false;
    while v != 0
        invariant
            (carry_in(odd) + ones(v)) % 2 == ones(x) % 2,
        decreases v,
    {
        if v % 2 == 1 {
            odd = !odd;
        }
        v = v / 2;
    }
    !odd
}

} // verus!
