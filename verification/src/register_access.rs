//! The register transaction layer: bus-address resolution, the write and
//! write-then-read transaction shapes with their packet error codes, the
//! EEPROM write sequence, and the sign-magnitude register decoding.

use vstd::prelude::*;

use crate::bus::{DelayMs, I2cBus};
use crate::conversion::u16_from_le_bytes;
use crate::pec::{crc8, crc8_spec};
use crate::types::{Error, SlaveAddr};
use crate::Mlx9061x;

verus! {

/// The 7-bit bus address that a slave-address choice resolves to, or
/// `None` when the choice is rejected: address 0 is reserved for
/// broadcast and addresses above 127 are outside the 7-bit range.
pub open spec fn resolved_address(address: SlaveAddr, default: u8) -> Option<u8> {
    match address {
        SlaveAddr::Default => Some(default),
        SlaveAddr::Alternative(a) => if 1 <= a && a <= 127 {
            Some(a)
        } else {
            None
        },
    }
}

/// The bus write-address byte of a 7-bit device address: the address
/// shifted left by one, with the transfer-direction bit clear.
pub open spec fn write_address_byte(address: u8) -> u8 {
    (2 * address) as u8
}

/// The bus read-address byte of a 7-bit device address: the address
/// shifted left by one, with the transfer-direction bit set.
pub open spec fn read_address_byte(address: u8) -> u8 {
    (2 * address + 1) as u8
}

/// The bytes the checksum of a register read covers: the write-address
/// byte, the register byte, the read-address byte, and the two received
/// data bytes, in that order.
pub open spec fn read_pec_input(address: u8, register: u8, low: u8, high: u8) -> Seq<u8> {
    seq![write_address_byte(address), register, read_address_byte(address), low, high]
}

/// The outgoing frame of a 16-bit register write: the register byte, the
/// value split into its low and high bytes, and the checksum over
/// `[write-address, register, low, high]` appended.
pub open spec fn write_word_frame(address: u8, register: u8, data: u16) -> Seq<u8> {
    let low = (data % 256) as u8;
    let high = (data / 256) as u8;
    seq![register, low, high, crc8_spec(seq![write_address_byte(address), register, low, high])]
}

/// The outgoing frame of a single-byte command: the command byte and the
/// checksum over `[write-address, command]` appended.
pub open spec fn command_frame(address: u8, command: u8) -> Seq<u8> {
    seq![command, crc8_spec(seq![write_address_byte(address), command])]
}

/// Build the checksum input of a register read (see [`read_pec_input`]).
pub fn build_read_pec_input(address: u8, register: u8, low: u8, high: u8) -> (frame: [u8; 5])
    requires
        address <= 127,
    ensures
        frame@ == read_pec_input(address, register, low, high),
{
    proof {
        assert(address <= 127 ==> (address << 1) == 2 * address && address << 1 <= 254)
            by (bit_vector);
    }
    let write_address: u8 = address << 1;
    let frame: [u8; 5] = [write_address, register, write_address + 1, low, high];
    proof {
        assert(frame@ =~= read_pec_input(address, register, low, high));
    }
    frame
}

/// Build the outgoing frame of a 16-bit register write (see
/// [`write_word_frame`]).
pub fn build_write_word_frame(address: u8, register: u8, data: u16) -> (frame: [u8; 4])
    requires
        address <= 127,
    ensures
        frame@ == write_word_frame(address, register, data),
{
    proof {
        assert(address <= 127 ==> (address << 1) == 2 * address) by (bit_vector);
        assert(data >> 8 < 256 && data >> 8 == data / 256) by (bit_vector);
    }
    proof {
        assert(data as u8 == (data % 256) as u8) by (bit_vector);
    }
    let low: u8 = #[verifier::truncate] (data as u8);
    let high: u8 = (data >> 8) as u8;
    let write_address: u8 = address << 1;
    let pec_input: [u8; 4] = [write_address, register, low, high];
    let pec: u8 = crc8(pec_input.as_slice());
    let frame: [u8; 4] = [register, low, high, pec];
    proof {
        assert(pec_input@ =~= seq![write_address_byte(address), register, low, high]);
        assert(frame@ =~= write_word_frame(address, register, data));
    }
    frame
}

/// Build the outgoing frame of a single-byte command (see
/// [`command_frame`]).
pub fn build_command_frame(address: u8, command: u8) -> (frame: [u8; 2])
    requires
        address <= 127,
    ensures
        frame@ == command_frame(address, command),
{
    proof {
        assert(address <= 127 ==> (address << 1) == 2 * address) by (bit_vector);
    }
    let write_address: u8 = address << 1;
    let pec_input: [u8; 2] = [write_address, command];
    let pec: u8 = crc8(pec_input.as_slice());
    let frame: [u8; 2] = [command, pec];
    proof {
        assert(pec_input@ =~= seq![write_address_byte(address), command]);
        assert(frame@ =~= command_frame(address, command));
    }
    frame
}

/// Decode the 16-bit sign-magnitude register format: the top bit is a
/// sign flag, the low 15 bits are the magnitude. This differs from
/// two's-complement. The encoding has both a `+0` and a `-0`
/// representation; both decode to plain zero, since `i16` has no
/// negative zero.
pub fn msb_lsb_to_sign_magnitude(value: u16) -> (decoded: i16)
    ensures
        value < 0x8000 ==> decoded == value as i16,
        value >= 0x8000 ==> decoded as int == 0x8000 - value as int,
{
    let sign_bit: u16 = value & 0b1000_0000_0000_0000;
    let magnitude_bits: u16 = value & 0b0111_1111_1111_1111;
    proof {
        assert(value & 0x7fff < 0x8000) by (bit_vector);
        assert(value < 0x8000 ==> (value & 0x8000) == 0 && (value & 0x7fff) == value)
            by (bit_vector);
        assert(value >= 0x8000 ==> (value & 0x8000) != 0 && (value & 0x7fff) == value - 0x8000)
            by (bit_vector);
    }
    let magnitude: i16 = magnitude_bits as i16;
    if sign_bit != 0 {
        -magnitude
    } else {
        magnitude
    }
}

impl<E, I2C, IC> Mlx9061x<I2C, IC> where I2C: I2cBus<BusError = E> {
    /// Resolve a slave-address choice against the variant's factory
    /// default: `Default` yields the default, a valid alternative passes
    /// through unchanged, and 0 or anything above 127 is rejected as
    /// `InvalidInputData`. Never touches the bus.
    pub fn get_address(address: SlaveAddr, default: u8) -> (r: Result<u8, Error<E>>)
        ensures
            r == (match resolved_address(address, default) {
                Some(a) => Ok::<u8, Error<E>>(a),
                None => Err::<u8, Error<E>>(Error::InvalidInputData),
            }),
    {
        match address {
            SlaveAddr::Default => Ok(default),
            SlaveAddr::Alternative(a) => if a == 0 || a > 127 {
                Err(Error::InvalidInputData)
            } else {
                Ok(a)
            },
        }
    }

    /// Check a received packet error code: `Ok` exactly when `expected`
    /// equals the checksum of `data`, and `ChecksumMismatch` otherwise.
    pub fn check_pec(data: &[u8], expected: u8) -> (r: Result<(), Error<E>>)
        ensures
            r == (if crc8_spec(data@) == expected {
                Ok::<(), Error<E>>(())
            } else {
                Err::<(), Error<E>>(Error::ChecksumMismatch)
            }),
    {
        if crc8(data) != expected {
            Err(Error::ChecksumMismatch)
        } else {
            Ok(())
        }
    }

    /// Read a 16-bit register: issue a write-then-read transaction,
    /// verify the trailing packet error code over
    /// `[address<<1, register, (address<<1)+1, low, high]`, and on
    /// success decode the two data bytes little-endian.
    ///
    /// A transport failure surfaces as `I2C`; a checksum failure as
    /// `ChecksumMismatch`, never as a silently wrong value.
    pub fn read_u16(&mut self, register: u8) -> (r: Result<u16, Error<E>>)
        requires
            old(self).valid(),
        ensures
            final(self)@ == old(self)@,
            r matches Err(e) ==> (e is I2C || e is ChecksumMismatch),
    {
        let device_address: u8 = self.address;
        let request: [u8; 1] = [register];
        let data = match self.i2c.write_read(device_address, request.as_slice(), 3) {
            Ok(d) => d,
            Err(e) => {
                return Err(Error::I2C(e));
            },
        };
        let pec: u8 = data[2];
        let frame = build_read_pec_input(device_address, register, data[0], data[1]);
        match Self::check_pec(frame.as_slice(), pec) {
            Ok(()) => (),
            Err(e) => {
                return Err(e);
            },
        }
        Ok(u16_from_le_bytes(data[0], data[1]))
    }

    /// Read a 16-bit register and decode it as a sign-magnitude integer
    /// (see [`msb_lsb_to_sign_magnitude`]).
    pub fn read_i16(&mut self, register: u8) -> (r: Result<i16, Error<E>>)
        requires
            old(self).valid(),
        ensures
            final(self)@ == old(self)@,
            r matches Err(e) ==> (e is I2C || e is ChecksumMismatch),
    {
        let value = match self.read_u16(register) {
            Ok(v) => v,
            Err(e) => {
                return Err(e);
            },
        };
        Ok(msb_lsb_to_sign_magnitude(value))
    }

    /// Issue a single-byte command: one outgoing write of
    /// `[command, pec]`, the checksum computed over `[address<<1, command]`.
    pub fn write_u8(&mut self, command: u8) -> (r: Result<(), Error<E>>)
        requires
            old(self).valid(),
        ensures
            final(self)@ == old(self)@,
            r matches Err(e) ==> e is I2C,
    {
        let device_address: u8 = self.address;
        let frame = build_command_frame(device_address, command);
        match self.i2c.write(device_address, frame.as_slice()) {
            Ok(()) => Ok(()),
            Err(e) => Err(Error::I2C(e)),
        }
    }

    /// Write a 16-bit register value: split it into low/high bytes,
    /// compute the checksum over `[address<<1, register, low, high]`, and
    /// issue one outgoing write of `[register, low, high, pec]`.
    pub fn write_u16(&mut self, register: u8, data: u16) -> (r: Result<(), Error<E>>)
        requires
            old(self).valid(),
        ensures
            final(self)@ == old(self)@,
            r matches Err(e) ==> e is I2C,
    {
        let device_address: u8 = self.address;
        let frame = build_write_word_frame(device_address, register, data);
        match self.i2c.write(device_address, frame.as_slice()) {
            Ok(()) => Ok(()),
            Err(e) => Err(Error::I2C(e)),
        }
    }

    /// Write a non-volatile (EEPROM) register. The cell cannot be
    /// overwritten directly: it is first cleared to zero, then, after the
    /// configured settling delay, the real value is written.
    ///
    /// If the clearing write succeeds and the rewrite fails, the cell is
    /// left cleared-but-not-rewritten; this hazard is inherent to the
    /// hardware protocol. The sequence is never retried.
    pub fn write_u16_eeprom<D: DelayMs>(
        &mut self,
        register: u8,
        data: u16,
        delay: &mut D,
    ) -> (r: Result<(), Error<E>>)
        requires
            old(self).valid(),
        ensures
            final(self)@ == old(self)@,
            r matches Err(e) ==> e is I2C,
    {
        match self.write_u16(register, 0) {
            Ok(()) => (),
            Err(e) => {
                return Err(e);
            },
        }
        delay.delay_ms(self.eeprom_write_delay_ms as u32);
        self.write_u16(register, data)
    }
}

} // verus!
