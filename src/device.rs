//! Port-mapped I/O: what IN and OUT talk to.
use vstd::prelude::*;

verus! {

/// A device on the I/O ports, supplied by the host.
pub trait Device {
    /// Takes the byte `v` that OUT writes to `port`.
    fn pmi(&mut self, port: u8, v: u8);

    /// The byte that IN reads from `port`.
    fn pmo(&self, port: u8) -> u8;
}

} // verus!
