//! Single-bit access on bytes.
use vstd::prelude::*;

verus! {

/// Bit `b` of `n` (bit 0 is the least significant).
pub open spec fn bit_of(n: u8, b: u8) -> bool {
    (n >> b) & 1u8 == 1u8
}

/// Whether bit `b` of `n` is set.
pub fn get(n: u8, b: usize) -> (r: bool)
    requires
        b < 8,
    ensures
        r == bit_of(n, b as u8),
{
    let k = b as u8;
    let r = (n & (1u8 << k)) != 0;
    assert(((n & (1u8 << k)) != 0) == ((n >> k) & 1u8 == 1u8)) by (bit_vector)
        requires
            k < 8,
    ;
    r
}

/// `n` with bit `b` set.
pub fn set(n: u8, b: usize) -> (r: u8)
    requires
        b < 8,
    ensures
        forall|i: u8| i < 8 ==> #[trigger] bit_of(r, i) == (i == b || bit_of(n, i)),
{
    let k = b as u8;
    let r = n | (1u8 << k);
    assert(forall|i: u8| i < 8 ==> ((r >> i) & 1u8 == 1u8) == (i == k || (n >> i) & 1u8 == 1u8))
        by (bit_vector)
        requires
            k < 8,
            r == n | (1u8 << k),
    ;
    r
}

/// `n` with bit `b` cleared.
pub fn clr(n: u8, b: usize) -> (r: u8)
    requires
        b < 8,
    ensures
        forall|i: u8| i < 8 ==> #[trigger] bit_of(r, i) == (i != b && bit_of(n, i)),
{
    let k = b as u8;
    let r = n & !(1u8 << k);
    assert(forall|i: u8| i < 8 ==> ((r >> i) & 1u8 == 1u8) == (i != k && (n >> i) & 1u8 == 1u8))
        by (bit_vector)
        requires
            k < 8,
            r == n & !(1u8 << k),
    ;
    r
}

} // verus!
