//! Operations shared by both chip variants: changing the stored bus
//! address and entering sleep mode. The two variants differ only in
//! their register maps and factory defaults, so the two impl blocks are
//! the same logic instantiated with each variant's constants.

use vstd::prelude::*;

use crate::bus::{DelayMs, I2cBus};
use crate::ic;
use crate::register_access::resolved_address;
use crate::types::{Error, SlaveAddr};
use crate::{mlx90614, mlx90615, Mlx9061x};

verus! {

impl<E, I2C> Mlx9061x<I2C, ic::Mlx90614> where I2C: I2cBus<BusError = E> {
    /// Change the device bus address. The new address is stored in the
    /// device EEPROM via the clear-wait-rewrite sequence, and the handle
    /// talks to the new address from then on.
    ///
    /// The choice is validated first, before any bus access: an invalid
    /// alternative address yields `InvalidInputData`, and exactly that
    /// error. On any failure the handle keeps its old address.
    pub fn set_address<D: DelayMs>(&mut self, address: SlaveAddr, delay_ms: &mut D) -> (r: Result<
        (),
        Error<E>,
    >)
        requires
            old(self).valid(),
        ensures
            final(self).valid(),
            final(self)@.eeprom_write_delay_ms == old(self)@.eeprom_write_delay_ms,
            r == Err::<(), Error<E>>(Error::InvalidInputData) <==> resolved_address(
                address,
                mlx90614::DEV_ADDR,
            ) is None,
            r is Ok ==> Some(final(self)@.address) == resolved_address(
                address,
                mlx90614::DEV_ADDR,
            ),
            r is Err ==> final(self)@.address == old(self)@.address,
            r matches Err(e) ==> (e is I2C || e is InvalidInputData),
    {
        let resolved = match Self::get_address(address, mlx90614::DEV_ADDR) {
            Ok(a) => a,
            Err(e) => {
                return Err(e);
            },
        };
        match self.write_u16_eeprom(mlx90614::Register::ADDRESS, resolved as u16, delay_ms) {
            Ok(()) => (),
            Err(e) => {
                return Err(e);
            },
        }
        self.address = resolved;
        Ok(())
    }

    /// Enter sleep mode: a single fixed command byte, no reply expected.
    ///
    /// After entering sleep, either destroy this driver to get the raw
    /// pins back and call [`crate::wake_mlx90614`], or power-cycle the
    /// device to wake it.
    pub fn sleep(&mut self) -> (r: Result<(), Error<E>>)
        requires
            old(self).valid(),
        ensures
            final(self)@ == old(self)@,
            r matches Err(e) ==> e is I2C,
    {
        self.write_u8(mlx90614::SLEEP_COMMAND)
    }
}

impl<E, I2C> Mlx9061x<I2C, ic::Mlx90615> where I2C: I2cBus<BusError = E> {
    /// Change the device bus address. The new address is stored in the
    /// device EEPROM via the clear-wait-rewrite sequence, and the handle
    /// talks to the new address from then on.
    ///
    /// The choice is validated first, before any bus access: an invalid
    /// alternative address yields `InvalidInputData`, and exactly that
    /// error. On any failure the handle keeps its old address.
    pub fn set_address<D: DelayMs>(&mut self, address: SlaveAddr, delay_ms: &mut D) -> (r: Result<
        (),
        Error<E>,
    >)
        requires
            old(self).valid(),
        ensures
            final(self).valid(),
            final(self)@.eeprom_write_delay_ms == old(self)@.eeprom_write_delay_ms,
            r == Err::<(), Error<E>>(Error::InvalidInputData) <==> resolved_address(
                address,
                mlx90615::DEV_ADDR,
            ) is None,
            r is Ok ==> Some(final(self)@.address) == resolved_address(
                address,
                mlx90615::DEV_ADDR,
            ),
            r is Err ==> final(self)@.address == old(self)@.address,
            r matches Err(e) ==> (e is I2C || e is InvalidInputData),
    {
        let resolved = match Self::get_address(address, mlx90615::DEV_ADDR) {
            Ok(a) => a,
            Err(e) => {
                return Err(e);
            },
        };
        match self.write_u16_eeprom(mlx90615::Register::ADDRESS, resolved as u16, delay_ms) {
            Ok(()) => (),
            Err(e) => {
                return Err(e);
            },
        }
        self.address = resolved;
        Ok(())
    }

    /// Enter sleep mode: a single fixed command byte, no reply expected.
    ///
    /// After entering sleep, either destroy this driver to get the raw
    /// pins back and call [`crate::wake_mlx90615`], or power-cycle the
    /// device to wake it.
    pub fn sleep(&mut self) -> (r: Result<(), Error<E>>)
        requires
            old(self).valid(),
        ensures
            final(self)@ == old(self)@,
            r matches Err(e) ==> e is I2C,
    {
        self.write_u8(mlx90615::SLEEP_COMMAND)
    }
}

} // verus!
