//! The register file: seven 8-bit registers, the flag register, SP and PC.
use vstd::prelude::*;

use crate::bit;
use crate::bit::bit_of;

verus! {

/// The 16-bit value whose high byte is `hi` and whose low byte is `lo`.
pub open spec fn pair(hi: u8, lo: u8) -> u16 {
    (hi as int * 256 + lo as int) as u16
}

/// The high byte of `v`.
pub open spec fn high(v: u16) -> u8 {
    (v / 256) as u8
}

/// The low byte of `v`.
pub open spec fn low(v: u16) -> u8 {
    (v % 256) as u8
}

/// What F becomes when it is written as the low byte of AF: only S, Z, A, P and C are
/// kept, and the reserved bit 1 is set.
pub open spec fn mask_flags(x: u8) -> u8 {
    (x & 0xD5u8) | 0x02u8
}

/// The invariant of F: bit 1 is set, bits 3 and 5 are clear.
pub open spec fn flags_ok(f: u8) -> bool {
    bit_of(f, 1) && !bit_of(f, 3) && !bit_of(f, 5)
}

/// The five condition flags held in F.
#[derive(Clone, Copy, Debug, PartialEq, Eq)]
pub enum Flag {
    /// Sign: bit 7 of the result.
    S,
    /// Zero: the result is zero.
    Z,
    /// Auxiliary carry out of bit 3.
    A,
    /// Parity: the result has an even number of one bits.
    P,
    /// Carry out of bit 7, or borrow.
    C,
}

impl Flag {
    /// The bit of F that holds the flag.
    pub open spec fn pos(self) -> u8 {
        match self {
            Flag::S => 7,
            Flag::Z => 6,
            Flag::A => 4,
            Flag::P => 2,
            Flag::C => 0,
        }
    }

    /// The bit of F that holds the flag, as an index.
    pub fn index(self) -> (r: usize)
        ensures
            r == self.pos(),
    {
        match self {
            Flag::S => 7,
            Flag::Z => 6,
            Flag::A => 4,
            Flag::P => 2,
            Flag::C => 0,
        }
    }
}

/// The programmer-visible registers. In every pair (AF, BC, DE, HL) the first
/// register is the high byte.
#[derive(Clone, Copy, Debug, PartialEq, Eq)]
pub struct Register {
    pub a: u8,
    pub f: u8,
    pub b: u8,
    pub c: u8,
    pub d: u8,
    pub e: u8,
    pub h: u8,
    pub l: u8,
    pub sp: u16,
    pub pc: u16,
}

impl Register {
    /// The program status word: A high, F low.
    pub open spec fn af(self) -> u16 {
        pair(self.a, self.f)
    }

    pub open spec fn bc(self) -> u16 {
        pair(self.b, self.c)
    }

    pub open spec fn de(self) -> u16 {
        pair(self.d, self.e)
    }

    pub open spec fn hl(self) -> u16 {
        pair(self.h, self.l)
    }

    /// Whether flag `fl` is set in F.
    pub open spec fn flag(self, fl: Flag) -> bool {
        bit_of(self.f, fl.pos())
    }

    pub fn get_af(&self) -> (r: u16)
        ensures
            r == self.af(),
    {
        join(self.a, self.f)
    }

    pub fn get_bc(&self) -> (r: u16)
        ensures
            r == self.bc(),
    {
        join(self.b, self.c)
    }

    pub fn get_de(&self) -> (r: u16)
        ensures
            r == self.de(),
    {
        join(self.d, self.e)
    }

    pub fn get_hl(&self) -> (r: u16)
        ensures
            r == self.hl(),
    {
        join(self.h, self.l)
    }

    /// Writes AF; F keeps only its flag bits and gets the reserved bit 1.
    pub fn set_af(&mut self, v: u16)
        ensures
            *final(self) == (Register { a: high(v), f: mask_flags(low(v)), ..*old(self) }),
    {
        self.a = hi_byte(v);
        self.f = (lo_byte(v) & 0xd5) | 0x02;
    }

    pub fn set_bc(&mut self, v: u16)
        ensures
            *final(self) == (Register { b: high(v), c: low(v), ..*old(self) }),
    {
        self.b = hi_byte(v);
        self.c = lo_byte(v);
    }

    pub fn set_de(&mut self, v: u16)
        ensures
            *final(self) == (Register { d: high(v), e: low(v), ..*old(self) }),
    {
        self.d = hi_byte(v);
        self.e = lo_byte(v);
    }

    pub fn set_hl(&mut self, v: u16)
        ensures
            *final(self) == (Register { h: high(v), l: low(v), ..*old(self) }),
    {
        self.h = hi_byte(v);
        self.l = lo_byte(v);
    }

    pub fn get_flag(&self, f: Flag) -> (r: bool)
        ensures
            r == self.flag(f),
    {
        bit::get(self.f, f.index())
    }

    /// Sets flag `f` to `v`; every other bit of F, and every other register, is kept.
    pub fn set_flag(&mut self, f: Flag, v: bool)
        ensures
            final(self).flag(f) == v,
            forall|i: u8| i < 8 && i != f.pos() ==> #[trigger] bit_of(final(self).f, i) == bit_of(old(self).f, i),
            *final(self) == (Register { f: final(self).f, ..*old(self) }),
    {
        if v {
            self.f = bit::set(self.f, f.index());
        } else {
            self.f = bit::clr(self.f, f.index());
        }
    }

    /// The state at power-up: every register zero but the reserved bit 1 of F.
    pub fn power_up() -> (r: Register)
        ensures
            r == (Register { a: 0, f: 0x02, b: 0, c: 0, d: 0, e: 0, h: 0, l: 0, sp: 0, pc: 0 }),
            flags_ok(r.f),
    {
        let r = Register { a: 0, f: 0x02, b: 0, c: 0, d: 0, e: 0, h: 0, l: 0, sp: 0, pc: 0 };
        assert(flags_ok(0x02u8)) by (bit_vector);
        r
    }
}

/// `hi` and `lo` as one word.
pub(crate) fn join(hi: u8, lo: u8) -> (r: u16)
    ensures
        r == pair(hi, lo),
{
    let r = ((hi as u16) << 8) | (lo as u16);
    assert(((hi as u16) << 8) | (lo as u16) == (hi as int * 256 + lo as int) as u16) by (bit_vector);
    r
}

pub(crate) fn hi_byte(v: u16) -> (r: u8)
    ensures
        r == high(v),
{
    assert((v >> 8) as u8 == (v / 256) as u8) by (bit_vector);
    (v >> 8) as u8
}

pub(crate) fn lo_byte(v: u16) -> (r: u8)
    ensures
        r == low(v),
{
    assert((v & 0xff) as u8 == (v % 256) as u8) by (bit_vector);
    (v & 0xff) as u8
}

} // verus!
