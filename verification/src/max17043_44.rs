//! MAX17043 and MAX17044: the sub-family whose state-of-charge register
//! encodes an integer percent byte and a 1/256-percent fraction byte.

use vstd::prelude::*;
use crate::conversion::{vcell_nanovolts_43, vcell_nanovolts_44};
use crate::register_access::{
    read_fail_op, read_ok_op, read_register, reg_write_op, write_register, CMD_POR_43_44,
    CMD_QSTRT, REG_COMMAND, REG_MODE, REG_SOC, REG_VCELL, REG_VERSION,
};
use crate::transport::Transport;
use crate::types::{BusOp, Error};

verus! {

/// Driver for the MAX17043 (single cell, 1.25 mV per VCELL step).
pub struct Max17043<T> {
    bus: T,
}

/// Driver for the MAX17044 (dual cell, 2.5 mV per VCELL step).
pub struct Max17044<T> {
    bus: T,
}

impl<T: Transport> Max17043<T> {
    /// The bus transport this driver owns.
    pub closed spec fn transport(&self) -> T {
        self.bus
    }

    /// The bus transactions issued through this driver's transport,
    /// oldest first.
    pub open spec fn ops(&self) -> Seq<BusOp> {
        self.transport().ops()
    }

    /// Create a new instance of the device: wraps the transport and
    /// issues no transaction.
    pub fn new(bus: T) -> (r: Self)
        ensures
            r.transport() == bus,
    {
        Max17043 { bus }
    }

    /// Destroy the driver instance and return the bus transport,
    /// unchanged.
    pub fn destroy(self) -> (r: T)
        ensures
            r == self.transport(),
    {
        self.bus
    }

    /// Quick start: restarts fuel-gauge calculations in the same manner
    /// as initial power-up of the IC. Issues exactly one write of the
    /// quick-start command to the mode register.
    pub fn quickstart(&mut self) -> (r: Result<(), Error<T::TError>>)
        ensures
            final(self).ops() == old(self).ops().push(reg_write_op(REG_MODE, CMD_QSTRT, r is Ok)),
            r is Err ==> r matches Err(Error::I2C(_)),
    {
        write_register(&mut self.bus, REG_MODE, CMD_QSTRT)
    }

    /// Get the IC version: one read of the version register, returned
    /// verbatim with no scaling.
    pub fn version(&mut self) -> (r: Result<u16, Error<T::TError>>)
        ensures
            match r {
                Ok(v) => final(self).ops() == old(self).ops().push(read_ok_op(REG_VERSION, v)),
                Err(_) => final(self).ops() == old(self).ops().push(read_fail_op(REG_VERSION)),
            },
            r is Err ==> r matches Err(Error::I2C(_)),
    {
        read_register(&mut self.bus, REG_VERSION)
    }

    /// Get the state of charge of the cell as calculated by the
    /// device's model, in units of 1/256 percent: the high byte of the
    /// register counts whole percent, the low byte 1/256 fractions.
    pub fn soc(&mut self) -> (r: Result<u16, Error<T::TError>>)
        ensures
            match r {
                Ok(v) => final(self).ops() == old(self).ops().push(read_ok_op(REG_SOC, v)),
                Err(_) => final(self).ops() == old(self).ops().push(read_fail_op(REG_SOC)),
            },
            r is Err ==> r matches Err(Error::I2C(_)),
    {
        let raw = match read_register(&mut self.bus, REG_SOC) {
            Ok(v) => v,
            Err(e) => return Err(e),
        };
        let int_part: u16 = (raw & 0xFF00) >> 8;
        let frac: u16 = raw & 0xFF;
        proof {
            assert((raw & 0xFF00) >> 8 <= 0xFF && raw & 0xFF <= 0xFF && ((raw & 0xFF00) >> 8)
                * 256 + (raw & 0xFF) == raw) by (bit_vector);
        }
        Ok(int_part * 256 + frac)
    }

    /// Software reset: one write of the sub-family's power-on-reset
    /// command to the command register.
    pub fn reset(&mut self) -> (r: Result<(), Error<T::TError>>)
        ensures
            final(self).ops() == old(self).ops().push(reg_write_op(REG_COMMAND, CMD_POR_43_44, r is Ok)),
            r is Err ==> r matches Err(Error::I2C(_)),
    {
        write_register(&mut self.bus, REG_COMMAND, CMD_POR_43_44)
    }

    /// Get the battery voltage in nanovolts: one read of the VCELL
    /// register, whose top 12 bits count 1.25 mV each.
    pub fn voltage(&mut self) -> (r: Result<u64, Error<T::TError>>)
        ensures
            match r {
                Ok(v) => exists|raw: u16|
                    final(self).ops() == old(self).ops().push(read_ok_op(REG_VCELL, raw)) && v
                        == vcell_nanovolts_43(raw),
                Err(_) => final(self).ops() == old(self).ops().push(read_fail_op(REG_VCELL)),
            },
            r is Err ==> r matches Err(Error::I2C(_)),
    {
        let vcell = match read_register(&mut self.bus, REG_VCELL) {
            Ok(v) => v,
            Err(e) => return Err(e),
        };
        proof {
            assert(vcell >> 4 <= 0xFFF) by (bit_vector);
        }
        let v: u64 = ((vcell >> 4) as u64) * 1_250_000;
        proof {
            assert(self.ops() == old(self).ops().push(read_ok_op(REG_VCELL, vcell)) && v
                == vcell_nanovolts_43(vcell));
        }
        Ok(v)
    }
}

impl<T: Transport> Max17044<T> {
    /// The bus transport this driver owns.
    pub closed spec fn transport(&self) -> T {
        self.bus
    }

    /// The bus transactions issued through this driver's transport,
    /// oldest first.
    pub open spec fn ops(&self) -> Seq<BusOp> {
        self.transport().ops()
    }

    /// Create a new instance of the device: wraps the transport and
    /// issues no transaction.
    pub fn new(bus: T) -> (r: Self)
        ensures
            r.transport() == bus,
    {
        Max17044 { bus }
    }

    /// Destroy the driver instance and return the bus transport,
    /// unchanged.
    pub fn destroy(self) -> (r: T)
        ensures
            r == self.transport(),
    {
        self.bus
    }

    /// Quick start: restarts fuel-gauge calculations in the same manner
    /// as initial power-up of the IC. Issues exactly one write of the
    /// quick-start command to the mode register.
    pub fn quickstart(&mut self) -> (r: Result<(), Error<T::TError>>)
        ensures
            final(self).ops() == old(self).ops().push(reg_write_op(REG_MODE, CMD_QSTRT, r is Ok)),
            r is Err ==> r matches Err(Error::I2C(_)),
    {
        write_register(&mut self.bus, REG_MODE, CMD_QSTRT)
    }

    /// Get the IC version: one read of the version register, returned
    /// verbatim with no scaling.
    pub fn version(&mut self) -> (r: Result<u16, Error<T::TError>>)
        ensures
            match r {
                Ok(v) => final(self).ops() == old(self).ops().push(read_ok_op(REG_VERSION, v)),
                Err(_) => final(self).ops() == old(self).ops().push(read_fail_op(REG_VERSION)),
            },
            r is Err ==> r matches Err(Error::I2C(_)),
    {
        read_register(&mut self.bus, REG_VERSION)
    }

    /// Get the state of charge of the cell as calculated by the
    /// device's model, in units of 1/256 percent: the high byte of the
    /// register counts whole percent, the low byte 1/256 fractions.
    pub fn soc(&mut self) -> (r: Result<u16, Error<T::TError>>)
        ensures
            match r {
                Ok(v) => final(self).ops() == old(self).ops().push(read_ok_op(REG_SOC, v)),
                Err(_) => final(self).ops() == old(self).ops().push(read_fail_op(REG_SOC)),
            },
            r is Err ==> r matches Err(Error::I2C(_)),
    {
        let raw = match read_register(&mut self.bus, REG_SOC) {
            Ok(v) => v,
            Err(e) => return Err(e),
        };
        let int_part: u16 = (raw & 0xFF00) >> 8;
        let frac: u16 = raw & 0xFF;
        proof {
            assert((raw & 0xFF00) >> 8 <= 0xFF && raw & 0xFF <= 0xFF && ((raw & 0xFF00) >> 8)
                * 256 + (raw & 0xFF) == raw) by (bit_vector);
        }
        Ok(int_part * 256 + frac)
    }

    /// Software reset: one write of the sub-family's power-on-reset
    /// command to the command register.
    pub fn reset(&mut self) -> (r: Result<(), Error<T::TError>>)
        ensures
            final(self).ops() == old(self).ops().push(reg_write_op(REG_COMMAND, CMD_POR_43_44, r is Ok)),
            r is Err ==> r matches Err(Error::I2C(_)),
    {
        write_register(&mut self.bus, REG_COMMAND, CMD_POR_43_44)
    }

    /// Get the battery voltage in nanovolts: one read of the VCELL
    /// register, whose top 12 bits count 2.5 mV each.
    pub fn voltage(&mut self) -> (r: Result<u64, Error<T::TError>>)
        ensures
            match r {
                Ok(v) => exists|raw: u16|
                    final(self).ops() == old(self).ops().push(read_ok_op(REG_VCELL, raw)) && v
                        == vcell_nanovolts_44(raw),
                Err(_) => final(self).ops() == old(self).ops().push(read_fail_op(REG_VCELL)),
            },
            r is Err ==> r matches Err(Error::I2C(_)),
    {
        let vcell = match read_register(&mut self.bus, REG_VCELL) {
            Ok(v) => v,
            Err(e) => return Err(e),
        };
        proof {
            assert(vcell >> 4 <= 0xFFF) by (bit_vector);
        }
        let v: u64 = ((vcell >> 4) as u64) * 2_500_000;
        proof {
            assert(self.ops() == old(self).ops().push(read_ok_op(REG_VCELL, vcell)) && v
                == vcell_nanovolts_44(vcell));
        }
        Ok(v)
    }
}

} // verus!
