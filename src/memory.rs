//! The 16-bit address space seen by the processor.
use vstd::prelude::*;

use crate::register::{high, low, pair};

verus! {

/// Number of byte cells in the address space.
pub const SIZE: usize = 0x10000;

/// The address after `a`; 0xFFFF is followed by 0x0000.
pub open spec fn next_addr(a: u16) -> u16 {
    ((a + 1) % 0x10000) as u16
}

/// The little-endian word at `a`: low byte at `a`, high byte at the next address.
pub open spec fn word_at(cells: Seq<u8>, a: u16) -> u16 {
    pair(cells[next_addr(a) as int], cells[a as int])
}

/// `cells` with the word `v` written little-endian at `a`.
pub open spec fn write_word(cells: Seq<u8>, a: u16, v: u16) -> Seq<u8> {
    cells.update(a as int, low(v)).update(next_addr(a) as int, high(v))
}

/// A byte store addressed by 16-bit addresses. Its contents are `cells()`, which a
/// memory fit for the processor holds with one cell per address.
pub trait Memory {
    /// The cells of the store, by address.
    spec fn cells(&self) -> Seq<u8>;

    fn get(&self, a: u16) -> (r: u8)
        requires
            self.cells().len() == SIZE,
        ensures
            r == self.cells()[a as int],
    ;

    fn set(&mut self, a: u16, v: u8)
        requires
            old(self).cells().len() == SIZE,
        ensures
            final(self).cells() == old(self).cells().update(a as int, v),
    ;

    /// The little-endian word at `a`, wrapping from 0xFFFF to 0x0000.
    fn get_word(&self, a: u16) -> (r: u16)
        requires
            self.cells().len() == SIZE,
        ensures
            r == word_at(self.cells(), a),
    {
        let lo = self.get(a);
        let hi = self.get(a.wrapping_add(1));
        crate::register::join(hi, lo)
    }

    /// Writes `v` little-endian at `a`, wrapping from 0xFFFF to 0x0000.
    fn set_word(&mut self, a: u16, v: u16)
        requires
            old(self).cells().len() == SIZE,
        ensures
            final(self).cells() == write_word(old(self).cells(), a, v),
    {
        self.set(a, crate::register::lo_byte(v));
        self.set(a.wrapping_add(1), crate::register::hi_byte(v));
    }
}

/// A flat 64 KiB store.
pub struct Linear {
    pub data: Vec<u8>,
}

impl Memory for Linear {
    open spec fn cells(&self) -> Seq<u8> {
        self.data@
    }

    fn get(&self, a: u16) -> (r: u8) {
        self.data[a as usize]
    }

    fn set(&mut self, a: u16, v: u8) {
        self.data.set(a as usize, v);
    }
}

impl Linear {
    /// A store of 65,536 cells, all zero.
    pub fn new() -> (r: Self)
        ensures
            r.cells() == Seq::new(SIZE as nat, |i: int| 0u8),
    {
        let r = Self { data: vec![0; SIZE] };
        assert(r.cells() =~= Seq::new(SIZE as nat, |i: int| 0u8));
        r
    }
}

} // verus!
