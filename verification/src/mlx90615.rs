//! MLX90615-specific register map, constants and operations.

use vstd::prelude::*;

use core::marker::PhantomData;

use crate::bus::{DelayMs, I2cBus, OutputPin};
use crate::conversion::{celsius_from_raw_as_int, device_id_from_two_words};
use crate::ic;
use crate::register_access::resolved_address;
use crate::types::{Error, SlaveAddr};
use crate::Mlx9061x;

verus! {

/// Bit set in a register offset to address the EEPROM bank.
pub const EEPROM_COMMAND: u8 = 0x10;

/// Bit set in a register offset to address the RAM bank.
pub const RAM_COMMAND: u8 = 0x20;

/// Command byte that puts the device into its low-power sleep state.
pub const SLEEP_COMMAND: u8 = 0xC6;

/// Width of the wake pulse in milliseconds.
pub const WAKE_DELAY_MS: u8 = 39;

/// Factory-default bus address of the MLX90615.
pub const DEV_ADDR: u8 = 0x5B;

/// MLX90615 register map.
pub struct Register {}

impl Register {
    /// Raw IR data (RAM).
    pub const RAW_IR: u8 = 0x05 | RAM_COMMAND;

    /// Ambient temperature (RAM).
    pub const TA: u8 = 0x06 | RAM_COMMAND;

    /// Object temperature (RAM).
    pub const TOBJ: u8 = 0x07 | RAM_COMMAND;

    /// Device bus address (EEPROM).
    pub const ADDRESS: u8 = EEPROM_COMMAND;

    /// Emissivity word (EEPROM).
    pub const EMISSIVITY: u8 = 0x03 | EEPROM_COMMAND;

    /// First word of the 32-bit device identifier (EEPROM).
    pub const ID0: u8 = 0x0E | EEPROM_COMMAND;
}

/// Full-scale emissivity word of the MLX90615: the largest value the
/// encoding `round(ratio * 16384)` produces for a ratio in `[0, 1]`.
pub const EMISSIVITY_FULL_SCALE: u16 = 16384;

impl<E, I2C> Mlx9061x<I2C, ic::Mlx90615> where I2C: I2cBus<BusError = E> {
    /// Create a new handle for an MLX90615 behind the given bus.
    ///
    /// The slave-address choice is resolved and validated here, before
    /// any bus access: an invalid alternative address yields
    /// `InvalidInputData` and nothing else can fail. The address must
    /// match the one stored in the device EEPROM; use `set_address` to
    /// change it. `eeprom_write_delay_ms` is the settling delay waited
    /// after clearing an EEPROM cell.
    pub fn new_mlx90615(
        i2c: I2C,
        address: SlaveAddr,
        eeprom_write_delay_ms: u8,
    ) -> (r: Result<Self, Error<E>>)
        ensures
            r matches Ok(device) ==> device.valid(),
            r matches Ok(device) ==> Some(device@.address) == resolved_address(address, DEV_ADDR),
            r matches Ok(device) ==> device@.eeprom_write_delay_ms == eeprom_write_delay_ms,
            r matches Ok(device) ==> device.spec_bus() == i2c,
            r is Err <==> resolved_address(address, DEV_ADDR) is None,
            r matches Err(e) ==> e is InvalidInputData,
    {
        let resolved = match Self::get_address(address, DEV_ADDR) {
            Ok(a) => a,
            Err(e) => {
                return Err(e);
            },
        };
        Ok(Mlx9061x { i2c, eeprom_write_delay_ms, address: resolved, _ic: PhantomData })
    }

    /// Read the ambient temperature in whole degrees Celsius.
    ///
    /// Integer approximation of the exact conversion; see
    /// [`celsius_from_raw_as_int`].
    pub fn ambient_temperature_as_int(&mut self) -> (r: Result<u16, Error<E>>)
        requires
            old(self).valid(),
        ensures
            final(self)@ == old(self)@,
            r matches Err(e) ==> (e is I2C || e is ChecksumMismatch),
    {
        let raw = match self.read_u16(Register::TA) {
            Ok(v) => v,
            Err(e) => {
                return Err(e);
            },
        };
        Ok(celsius_from_raw_as_int(raw))
    }

    /// Read the object temperature in whole degrees Celsius.
    ///
    /// Integer approximation of the exact conversion; see
    /// [`celsius_from_raw_as_int`].
    pub fn object_temperature_as_int(&mut self) -> (r: Result<u16, Error<E>>)
        requires
            old(self).valid(),
        ensures
            final(self)@ == old(self)@,
            r matches Err(e) ==> (e is I2C || e is ChecksumMismatch),
    {
        let raw = match self.read_u16(Register::TOBJ) {
            Ok(v) => v,
            Err(e) => {
                return Err(e);
            },
        };
        Ok(celsius_from_raw_as_int(raw))
    }

    /// Read the raw IR data.
    pub fn raw_ir(&mut self) -> (r: Result<u16, Error<E>>)
        requires
            old(self).valid(),
        ensures
            final(self)@ == old(self)@,
            r matches Err(e) ==> (e is I2C || e is ChecksumMismatch),
    {
        self.read_u16(Register::RAW_IR)
    }

    /// Read the raw emissivity word. The emissivity ratio is this word
    /// divided by the MLX90615 full scale, 16384.
    pub fn emissivity_raw(&mut self) -> (r: Result<u16, Error<E>>)
        requires
            old(self).valid(),
        ensures
            final(self)@ == old(self)@,
            r matches Err(e) ==> (e is I2C || e is ChecksumMismatch),
    {
        self.read_u16(Register::EMISSIVITY)
    }

    /// Store an already-encoded emissivity word in the device EEPROM via
    /// the clear-wait-rewrite sequence. The word encodes the ratio
    /// `raw / 16384`.
    ///
    /// Words above the full scale [`EMISSIVITY_FULL_SCALE`] — which no
    /// ratio in `[0, 1]` encodes to — are rejected as `InvalidInputData`,
    /// and exactly those; the rejection happens before any bus access.
    pub fn set_emissivity_raw<D: DelayMs>(&mut self, raw: u16, delay: &mut D) -> (r: Result<
        (),
        Error<E>,
    >)
        requires
            old(self).valid(),
        ensures
            final(self)@ == old(self)@,
            r == Err::<(), Error<E>>(Error::InvalidInputData) <==> raw > EMISSIVITY_FULL_SCALE,
            r matches Err(e) ==> (e is I2C || e is InvalidInputData),
    {
        if raw > EMISSIVITY_FULL_SCALE {
            return Err(Error::InvalidInputData);
        }
        self.write_u16_eeprom(Register::EMISSIVITY, raw, delay)
    }

    /// Read the 32-bit device identifier: two consecutive EEPROM words,
    /// concatenated most-significant word first (see
    /// [`device_id_from_two_words`]).
    pub fn device_id(&mut self) -> (r: Result<u32, Error<E>>)
        requires
            old(self).valid(),
        ensures
            final(self)@ == old(self)@,
            r matches Err(e) ==> (e is I2C || e is ChecksumMismatch),
    {
        proof {
            assert(Register::ID0 + 1 <= 255) by (bit_vector);
        }
        let word0 = match self.read_u16(Register::ID0) {
            Ok(w) => w,
            Err(e) => {
                return Err(e);
            },
        };
        let word1 = match self.read_u16(Register::ID0 + 1) {
            Ok(w) => w,
            Err(e) => {
                return Err(e);
            },
        };
        Ok(device_id_from_two_words(word0, word1))
    }
}

/// Wake an MLX90615 from sleep mode. Not a bus transaction — the device
/// ignores the bus while asleep. The clock line is driven low for the
/// wake pulse width ([`WAKE_DELAY_MS`]), then released high. Afterwards
/// the bus peripheral must be reconstructed from the raw pins before a
/// new handle is created.
pub fn wake_mlx90615<E, SclPin, D>(scl: &mut SclPin, delay: &mut D) -> Result<(), E> where
    SclPin: OutputPin<PinError = E>,
    D: DelayMs,
 {
    match scl.set_low() {
        Ok(()) => (),
        Err(e) => {
            return Err(e);
        },
    }
    delay.delay_ms(WAKE_DELAY_MS as u32);
    scl.set_high()
}

} // verus!
