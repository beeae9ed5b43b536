//! The external collaborators of the driver, each as a trait that the
//! platform implements: the raw byte-level bus transport, the blocking
//! delay provider, and the output pins used for the wake pulse.
//!
//! The driver assumes exclusive, synchronous ownership of these handles
//! for the duration of each call; errors they report are surfaced
//! unchanged and never retried.

use vstd::prelude::*;

verus! {

/// Byte-level bus transport (the two-wire serial bus the chips sit on).
pub trait I2cBus {
    /// The transport's own error type.
    type BusError;

    /// Write `bytes` to the device with the given 7-bit bus address,
    /// as one atomic outgoing transaction.
    fn write(&mut self, address: u8, bytes: &[u8]) -> Result<(), Self::BusError>;

    /// Write `out_bytes` to the device with the given 7-bit bus address,
    /// then read exactly `read_len` bytes back, as one atomic
    /// write-then-read transaction.
    fn write_read(&mut self, address: u8, out_bytes: &[u8], read_len: usize) -> (r: Result<
        Vec<u8>,
        Self::BusError,
    >)
        ensures
            r matches Ok(data) ==> data@.len() == read_len,
    ;
}

/// Blocking delay provider.
pub trait DelayMs {
    /// Block the calling thread for at least `ms` milliseconds.
    fn delay_ms(&mut self, ms: u32);
}

/// An independently controlled digital output line, used only for the
/// pin-level wake pulse (the device is unresponsive to bus transactions
/// while asleep).
pub trait OutputPin {
    /// The pin's own error type.
    type PinError;

    /// Drive the line high.
    fn set_high(&mut self) -> Result<(), Self::PinError>;

    /// Drive the line low.
    fn set_low(&mut self) -> Result<(), Self::PinError>;
}

} // verus!
