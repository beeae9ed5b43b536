//! Register-level driver core for the MLX90614/MLX90615 infrared
//! thermometers, which speak a checksum-protected two-wire serial bus
//! protocol (SMBus).
//!
//! The core translates high-level operations (read a temperature word,
//! change the device's bus address, adjust the emissivity word, enter the
//! low-power state) into correctly sequenced, integrity-checked bus
//! transactions, and decodes raw register words.
//!
//! - Every outgoing write carries a packet error code (a CRC-8 checksum)
//!   over the address-framed bytes, and every read reply's trailing
//!   checksum is verified; a mismatch is a hard [`Error::ChecksumMismatch`],
//!   never silently tolerated.
//! - Non-volatile (EEPROM) registers are written with the required
//!   clear-wait-rewrite sequence.
//! - The bus address is validated once, before any bus access.
//!
//! The bus transport, the delay provider and the wake-pulse pins are
//! consumed through the [`I2cBus`], [`DelayMs`] and [`OutputPin`]
//! traits; the platform supplies them.

use core::marker::PhantomData;
use vstd::prelude::*;

pub mod ic;

mod bus;
mod common;
mod conversion;
mod pec;
mod register_access;
mod types;

pub mod mlx90614;
pub mod mlx90615;

pub use crate::bus::{DelayMs, I2cBus, OutputPin};
pub use crate::conversion::{
    celsius_as_int, celsius_from_raw_as_int, device_id_from_four_words, device_id_from_two_words,
    encode_ratio, lemma_encode_ratio_round_trip, u16_from_le_bytes,
};
pub use crate::mlx90614::wake_mlx90614;
pub use crate::mlx90615::wake_mlx90615;
pub use crate::pec::{crc8, crc8_spec, crc8_step, crc8_steps};
pub use crate::register_access::{
    build_command_frame, build_read_pec_input, build_write_word_frame, command_frame,
    msb_lsb_to_sign_magnitude, read_address_byte, read_pec_input, resolved_address,
    write_address_byte, write_word_frame,
};
pub use crate::types::{Error, SlaveAddr};

verus! {

/// The observable state of a device handle, for contracts: the resolved
/// 7-bit bus address and the configured EEPROM-write settling delay.
pub struct DeviceState {
    /// The resolved 7-bit bus address the handle talks to.
    pub address: u8,
    /// Milliseconds to wait after clearing an EEPROM cell.
    pub eeprom_write_delay_ms: u8,
}

/// MLX90614/MLX90615 device driver.
///
/// A handle owns the bus connection exclusively, holds the resolved 7-bit
/// bus address and the EEPROM-write settling delay, and is tagged with the
/// chip-variant marker `IC` (see [`ic`]).
#[derive(Debug)]
pub struct Mlx9061x<I2C, IC> {
    /// The concrete bus transport implementation.
    i2c: I2C,
    eeprom_write_delay_ms: u8,
    address: u8,
    _ic: PhantomData<IC>,
}

impl<I2C, IC> View for Mlx9061x<I2C, IC> {
    type V = DeviceState;

    closed spec fn view(&self) -> DeviceState {
        DeviceState {
            address: self.address,
            eeprom_write_delay_ms: self.eeprom_write_delay_ms,
        }
    }
}

impl<I2C, IC> Mlx9061x<I2C, IC> {
    /// A handle is well formed when its bus address lies in the valid
    /// 7-bit range: never 0 (reserved for broadcast) and never above 127.
    /// Constructors establish this and every method preserves it.
    pub open spec fn valid(&self) -> bool {
        1 <= self@.address <= 127
    }

    /// The bus connection the handle owns.
    pub closed spec fn spec_bus(&self) -> I2C {
        self.i2c
    }

    /// Destroy the driver instance and give the bus connection back.
    /// The handle is consumed and cannot be used afterwards.
    pub fn destroy(self) -> (bus: I2C)
        ensures
            bus == self.spec_bus(),
    {
        self.i2c
    }
}

} // verus!
