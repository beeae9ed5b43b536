//! Error taxonomy and the slave-address choice.

use vstd::prelude::*;

verus! {

/// All possible errors in this crate.
#[derive(Debug)]
pub enum Error<E> {
    /// I²C bus error, surfaced unchanged from the transport.
    I2C(E),
    /// The trailing packet error code of a read did not match the
    /// checksum computed over the received frame.
    ChecksumMismatch,
    /// The caller supplied an out-of-range value (a reserved or
    /// out-of-range bus address, or an out-of-range emissivity word).
    /// Detected before any bus access.
    InvalidInputData,
}

/// Possible slave addresses.
#[derive(Debug, Clone, Copy, PartialEq, Eq, Structural)]
pub enum SlaveAddr {
    /// Use the factory-default slave address of the device variant.
    Default,
    /// Use the given alternative slave address (7 bits).
    Alternative(u8),
}

impl Default for SlaveAddr {
    /// The factory-default address choice.
    fn default() -> (addr: Self)
        ensures
            addr == SlaveAddr::Default,
    {
        SlaveAddr::Default
    }
}

} // verus!
