//! MAX17048, MAX17049, MAX17058 and MAX17059: the sub-family whose
//! state-of-charge register is a direct count of 1/256 percent, and
//! which can be programmed with a 64-entry characterization table.

use vstd::prelude::*;
use crate::conversion::{crate_milli_percent_per_hour, vcell_nanovolts_x8, vcell_nanovolts_x9};
use crate::register_access::{
    raw_write_op, read_fail_op, read_ok_op, read_register, reg_write_op, write_bytes,
    write_register, write_u8_register, CMD_POR_X8_X9, CMD_QSTRT, REG_COMMAND, REG_CRATE, REG_MODE,
    REG_SOC, REG_VCELL, REG_VERSION,
};
use crate::transport::Transport;
use crate::types::{high_byte, low_byte, BusOp, Error};

verus! {

/// First table unlock/lock register.
pub const REG_TABLE_UNLOCK_1: u8 = 0x3F;
/// Second table unlock/lock register.
pub const REG_TABLE_UNLOCK_2: u8 = 0x3E;
/// Key byte written to the first unlock register to unlock the table.
pub const TABLE_UNLOCK_KEY_1: u8 = 0x57;
/// Key byte written to the second unlock register to unlock the table.
pub const TABLE_UNLOCK_KEY_2: u8 = 0x4A;
/// Byte written to both unlock registers to lock the table again.
pub const TABLE_LOCK_VALUE: u8 = 0x00;
/// Base byte address of the characterization table registers.
pub const TABLE_BASE: u8 = 0x40;

/// The 128 data bytes of the table burst write: each of the 64 entries
/// big-endian (high byte then low byte), in input order.
pub open spec fn table_data_bytes(t: Seq<u16>) -> Seq<u8> {
    Seq::new(128, |i: int| if i % 2 == 0 {
        high_byte(t[i / 2])
    } else {
        low_byte(t[i / 2])
    })
}

/// The full burst-write payload: the table base address byte followed
/// by the 128 entry bytes, address-contiguous from the base.
pub open spec fn table_burst_bytes(t: Seq<u16>) -> Seq<u8> {
    seq![TABLE_BASE] + table_data_bytes(t)
}

/// The byte payload of the i-th of the five transactions one
/// `set_table` call issues, in order: unlock byte 1, unlock byte 2,
/// the burst write, lock byte 1, lock byte 2.
pub open spec fn table_txn_bytes(t: Seq<u16>, i: int) -> Seq<u8> {
    if i == 0 {
        seq![REG_TABLE_UNLOCK_1, TABLE_UNLOCK_KEY_1]
    } else if i == 1 {
        seq![REG_TABLE_UNLOCK_2, TABLE_UNLOCK_KEY_2]
    } else if i == 2 {
        table_burst_bytes(t)
    } else if i == 3 {
        seq![REG_TABLE_UNLOCK_1, TABLE_LOCK_VALUE]
    } else {
        seq![REG_TABLE_UNLOCK_2, TABLE_LOCK_VALUE]
    }
}

/// The five successful transactions of a completed `set_table` call.
pub open spec fn table_ops_ok(t: Seq<u16>) -> Seq<BusOp> {
    Seq::new(5, |i: int| raw_write_op(table_txn_bytes(t, i), true))
}

/// The transactions of a `set_table` call whose (k+1)-th transaction
/// failed: the first k succeed, the next fails, and none follow.
pub open spec fn table_ops_failed_at(t: Seq<u16>, k: int) -> Seq<BusOp> {
    Seq::new(k as nat, |i: int| raw_write_op(table_txn_bytes(t, i), true)).push(
        raw_write_op(table_txn_bytes(t, k), false),
    )
}

/// Build the burst-write payload for a characterization table: the
/// table base address byte, then the 64 entries big-endian in order.
pub fn table_burst_payload(table: &[u16; 64]) -> (r: Vec<u8>)
    ensures
        r@ == table_burst_bytes(table@),
{
    let mut data: Vec<u8> = Vec::new();
    data.push(TABLE_BASE);
    proof {
        assert(data@ =~= table_burst_bytes(table@).take(1));
    }
    let mut i: usize = 0;
    while i < 64
        invariant
            i <= 64,
            data@ == table_burst_bytes(table@).take(1 + 2 * (i as int)),
        decreases 64 - i,
    {
        let v: u16 = table[i];
        data.push((v / 256) as u8);
        data.push((v % 256) as u8);
        proof {
            assert(data@ =~= table_burst_bytes(table@).take(1 + 2 * (i + 1 as int)));
        }
        i = i + 1;
    }
    proof {
        assert(data@ =~= table_burst_bytes(table@));
    }
    data
}

/// Program the characterization table: unlock the table registers,
/// burst-write the 64 values, and lock the registers again, stopping
/// at the first transport failure.
fn program_table<T: Transport>(t: &mut T, table: &[u16; 64]) -> (r: Result<(), Error<T::TError>>)
    ensures
        match r {
            Ok(_) => final(t).ops() == old(t).ops() + table_ops_ok(table@),
            Err(_) => exists|k: int|
                0 <= k < 5 && final(t).ops() == old(t).ops() + table_ops_failed_at(table@, k),
        },
        r is Err ==> r matches Err(Error::I2C(_)),
{
    match write_u8_register(t, REG_TABLE_UNLOCK_1, TABLE_UNLOCK_KEY_1) {
        Ok(()) => {}
        Err(e) => {
            proof {
                assert(t.ops() =~= old(t).ops() + table_ops_failed_at(table@, 0));
            }
            return Err(e);
        }
    }
    match write_u8_register(t, REG_TABLE_UNLOCK_2, TABLE_UNLOCK_KEY_2) {
        Ok(()) => {}
        Err(e) => {
            proof {
                assert(t.ops() =~= old(t).ops() + table_ops_failed_at(table@, 1));
            }
            return Err(e);
        }
    }
    let data = table_burst_payload(table);
    match write_bytes(t, &data) {
        Ok(()) => {}
        Err(e) => {
            proof {
                assert(t.ops() =~= old(t).ops() + table_ops_failed_at(table@, 2));
            }
            return Err(e);
        }
    }
    match write_u8_register(t, REG_TABLE_UNLOCK_1, TABLE_LOCK_VALUE) {
        Ok(()) => {}
        Err(e) => {
            proof {
                assert(t.ops() =~= old(t).ops() + table_ops_failed_at(table@, 3));
            }
            return Err(e);
        }
    }
    match write_u8_register(t, REG_TABLE_UNLOCK_2, TABLE_LOCK_VALUE) {
        Ok(()) => {
            proof {
                assert(t.ops() =~= old(t).ops() + table_ops_ok(table@));
            }
            Ok(())
        }
        Err(e) => {
            proof {
                assert(t.ops() =~= old(t).ops() + table_ops_failed_at(table@, 4));
            }
            Err(e)
        }
    }
}


/// Driver for the MAX17048 (single cell, 78.125 uV per VCELL step).
pub struct Max17048<T> {
    bus: T,
}

impl<T: Transport> Max17048<T> {
    /// The bus transport this driver owns.
    pub closed spec fn transport(&self) -> T {
        self.bus
    }

    /// The bus transactions issued through this driver's transport,
    /// oldest first.
    pub open spec fn ops(&self) -> Seq<BusOp> {
        self.transport().ops()
    }

    /// Create a new instance of the device: wraps the transport and
    /// issues no transaction.
    pub fn new(bus: T) -> (r: Self)
        ensures
            r.transport() == bus,
    {
        Max17048 { bus }
    }

    /// Destroy the driver instance and return the bus transport,
    /// unchanged.
    pub fn destroy(self) -> (r: T)
        ensures
            r == self.transport(),
    {
        self.bus
    }

    /// Quick start: restarts fuel-gauge calculations in the same manner
    /// as initial power-up of the IC. Issues exactly one write of the
    /// quick-start command to the mode register.
    pub fn quickstart(&mut self) -> (r: Result<(), Error<T::TError>>)
        ensures
            final(self).ops() == old(self).ops().push(reg_write_op(REG_MODE, CMD_QSTRT, r is Ok)),
            r is Err ==> r matches Err(Error::I2C(_)),
    {
        write_register(&mut self.bus, REG_MODE, CMD_QSTRT)
    }

    /// Get the IC version: one read of the version register, returned
    /// verbatim with no scaling.
    pub fn version(&mut self) -> (r: Result<u16, Error<T::TError>>)
        ensures
            match r {
                Ok(v) => final(self).ops() == old(self).ops().push(read_ok_op(REG_VERSION, v)),
                Err(_) => final(self).ops() == old(self).ops().push(read_fail_op(REG_VERSION)),
            },
            r is Err ==> r matches Err(Error::I2C(_)),
    {
        read_register(&mut self.bus, REG_VERSION)
    }

    /// Get the state of charge of the cell as calculated by the
    /// device's model, in units of 1/256 percent: the register is a
    /// direct count of 1/256-percent steps.
    pub fn soc(&mut self) -> (r: Result<u16, Error<T::TError>>)
        ensures
            match r {
                Ok(v) => final(self).ops() == old(self).ops().push(read_ok_op(REG_SOC, v)),
                Err(_) => final(self).ops() == old(self).ops().push(read_fail_op(REG_SOC)),
            },
            r is Err ==> r matches Err(Error::I2C(_)),
    {
        read_register(&mut self.bus, REG_SOC)
    }

    /// Software reset: one write of the sub-family's power-on-reset
    /// command to the command register.
    pub fn reset(&mut self) -> (r: Result<(), Error<T::TError>>)
        ensures
            final(self).ops() == old(self).ops().push(reg_write_op(REG_COMMAND, CMD_POR_X8_X9, r is Ok)),
            r is Err ==> r matches Err(Error::I2C(_)),
    {
        write_register(&mut self.bus, REG_COMMAND, CMD_POR_X8_X9)
    }

    /// Get the battery voltage in nanovolts: one read of the VCELL
    /// register, each of whose steps is worth 78.125 uV.
    pub fn voltage(&mut self) -> (r: Result<u64, Error<T::TError>>)
        ensures
            match r {
                Ok(v) => exists|raw: u16|
                    final(self).ops() == old(self).ops().push(read_ok_op(REG_VCELL, raw)) && v
                        == vcell_nanovolts_x8(raw),
                Err(_) => final(self).ops() == old(self).ops().push(read_fail_op(REG_VCELL)),
            },
            r is Err ==> r matches Err(Error::I2C(_)),
    {
        let vcell = match read_register(&mut self.bus, REG_VCELL) {
            Ok(v) => v,
            Err(e) => return Err(e),
        };
        let v: u64 = (vcell as u64) * 78_125;
        proof {
            assert(self.ops() == old(self).ops().push(read_ok_op(REG_VCELL, vcell)) && v
                == vcell_nanovolts_x8(vcell));
        }
        Ok(v)
    }

    /// Set the characterization table values: unlocks the table
    /// registers, burst-writes the 64 values, and locks the registers
    /// again — five transactions in order, stopping at the first
    /// transport failure (completed steps are not rolled back, so a
    /// mid-sequence failure can leave the device unlocked; re-invoke
    /// the whole sequence to restore the locked state).
    pub fn set_table(&mut self, table: &[u16; 64]) -> (r: Result<(), Error<T::TError>>)
        ensures
            match r {
                Ok(_) => final(self).ops() == old(self).ops() + table_ops_ok(table@),
                Err(_) => exists|k: int|
                    0 <= k < 5 && final(self).ops() == old(self).ops() + table_ops_failed_at(
                        table@,
                        k,
                    ),
            },
            r is Err ==> r matches Err(Error::I2C(_)),
    {
        program_table(&mut self.bus, table)
    }

    /// Get the approximate charge or discharge rate of the battery, in
    /// thousandths of a percent per hour: one read of the CRATE
    /// register, whose raw value counts signed two's-complement steps
    /// of 0.208 percent per hour (positive while charging, negative
    /// while discharging).
    pub fn charge_rate(&mut self) -> (r: Result<i32, Error<T::TError>>)
        ensures
            match r {
                Ok(v) => exists|raw: u16|
                    final(self).ops() == old(self).ops().push(read_ok_op(REG_CRATE, raw)) && v
                        == crate_milli_percent_per_hour(raw),
                Err(_) => final(self).ops() == old(self).ops().push(read_fail_op(REG_CRATE)),
            },
            r is Err ==> r matches Err(Error::I2C(_)),
    {
        let raw = match read_register(&mut self.bus, REG_CRATE) {
            Ok(v) => v,
            Err(e) => return Err(e),
        };
        let signed: i32 = if raw >= 0x8000 {
            (raw as i32) - 0x10000
        } else {
            raw as i32
        };
        let v: i32 = signed * 208;
        proof {
            assert(self.ops() == old(self).ops().push(read_ok_op(REG_CRATE, raw)) && v
                == crate_milli_percent_per_hour(raw));
        }
        Ok(v)
    }
}

/// Driver for the MAX17049 (dual cell, 156.25 uV per VCELL step).
pub struct Max17049<T> {
    bus: T,
}

impl<T: Transport> Max17049<T> {
    /// The bus transport this driver owns.
    pub closed spec fn transport(&self) -> T {
        self.bus
    }

    /// The bus transactions issued through this driver's transport,
    /// oldest first.
    pub open spec fn ops(&self) -> Seq<BusOp> {
        self.transport().ops()
    }

    /// Create a new instance of the device: wraps the transport and
    /// issues no transaction.
    pub fn new(bus: T) -> (r: Self)
        ensures
            r.transport() == bus,
    {
        Max17049 { bus }
    }

    /// Destroy the driver instance and return the bus transport,
    /// unchanged.
    pub fn destroy(self) -> (r: T)
        ensures
            r == self.transport(),
    {
        self.bus
    }

    /// Quick start: restarts fuel-gauge calculations in the same manner
    /// as initial power-up of the IC. Issues exactly one write of the
    /// quick-start command to the mode register.
    pub fn quickstart(&mut self) -> (r: Result<(), Error<T::TError>>)
        ensures
            final(self).ops() == old(self).ops().push(reg_write_op(REG_MODE, CMD_QSTRT, r is Ok)),
            r is Err ==> r matches Err(Error::I2C(_)),
    {
        write_register(&mut self.bus, REG_MODE, CMD_QSTRT)
    }

    /// Get the IC version: one read of the version register, returned
    /// verbatim with no scaling.
    pub fn version(&mut self) -> (r: Result<u16, Error<T::TError>>)
        ensures
            match r {
                Ok(v) => final(self).ops() == old(self).ops().push(read_ok_op(REG_VERSION, v)),
                Err(_) => final(self).ops() == old(self).ops().push(read_fail_op(REG_VERSION)),
            },
            r is Err ==> r matches Err(Error::I2C(_)),
    {
        read_register(&mut self.bus, REG_VERSION)
    }

    /// Get the state of charge of the cell as calculated by the
    /// device's model, in units of 1/256 percent: the register is a
    /// direct count of 1/256-percent steps.
    pub fn soc(&mut self) -> (r: Result<u16, Error<T::TError>>)
        ensures
            match r {
                Ok(v) => final(self).ops() == old(self).ops().push(read_ok_op(REG_SOC, v)),
                Err(_) => final(self).ops() == old(self).ops().push(read_fail_op(REG_SOC)),
            },
            r is Err ==> r matches Err(Error::I2C(_)),
    {
        read_register(&mut self.bus, REG_SOC)
    }

    /// Software reset: one write of the sub-family's power-on-reset
    /// command to the command register.
    pub fn reset(&mut self) -> (r: Result<(), Error<T::TError>>)
        ensures
            final(self).ops() == old(self).ops().push(reg_write_op(REG_COMMAND, CMD_POR_X8_X9, r is Ok)),
            r is Err ==> r matches Err(Error::I2C(_)),
    {
        write_register(&mut self.bus, REG_COMMAND, CMD_POR_X8_X9)
    }

    /// Get the battery voltage in nanovolts: one read of the VCELL
    /// register, each of whose steps is worth 156.25 uV.
    pub fn voltage(&mut self) -> (r: Result<u64, Error<T::TError>>)
        ensures
            match r {
                Ok(v) => exists|raw: u16|
                    final(self).ops() == old(self).ops().push(read_ok_op(REG_VCELL, raw)) && v
                        == vcell_nanovolts_x9(raw),
                Err(_) => final(self).ops() == old(self).ops().push(read_fail_op(REG_VCELL)),
            },
            r is Err ==> r matches Err(Error::I2C(_)),
    {
        let vcell = match read_register(&mut self.bus, REG_VCELL) {
            Ok(v) => v,
            Err(e) => return Err(e),
        };
        let v: u64 = (vcell as u64) * 156_250;
        proof {
            assert(self.ops() == old(self).ops().push(read_ok_op(REG_VCELL, vcell)) && v
                == vcell_nanovolts_x9(vcell));
        }
        Ok(v)
    }

    /// Set the characterization table values: unlocks the table
    /// registers, burst-writes the 64 values, and locks the registers
    /// again — five transactions in order, stopping at the first
    /// transport failure (completed steps are not rolled back, so a
    /// mid-sequence failure can leave the device unlocked; re-invoke
    /// the whole sequence to restore the locked state).
    pub fn set_table(&mut self, table: &[u16; 64]) -> (r: Result<(), Error<T::TError>>)
        ensures
            match r {
                Ok(_) => final(self).ops() == old(self).ops() + table_ops_ok(table@),
                Err(_) => exists|k: int|
                    0 <= k < 5 && final(self).ops() == old(self).ops() + table_ops_failed_at(
                        table@,
                        k,
                    ),
            },
            r is Err ==> r matches Err(Error::I2C(_)),
    {
        program_table(&mut self.bus, table)
    }

    /// Get the approximate charge or discharge rate of the battery, in
    /// thousandths of a percent per hour: one read of the CRATE
    /// register, whose raw value counts signed two's-complement steps
    /// of 0.208 percent per hour (positive while charging, negative
    /// while discharging).
    pub fn charge_rate(&mut self) -> (r: Result<i32, Error<T::TError>>)
        ensures
            match r {
                Ok(v) => exists|raw: u16|
                    final(self).ops() == old(self).ops().push(read_ok_op(REG_CRATE, raw)) && v
                        == crate_milli_percent_per_hour(raw),
                Err(_) => final(self).ops() == old(self).ops().push(read_fail_op(REG_CRATE)),
            },
            r is Err ==> r matches Err(Error::I2C(_)),
    {
        let raw = match read_register(&mut self.bus, REG_CRATE) {
            Ok(v) => v,
            Err(e) => return Err(e),
        };
        let signed: i32 = if raw >= 0x8000 {
            (raw as i32) - 0x10000
        } else {
            raw as i32
        };
        let v: i32 = signed * 208;
        proof {
            assert(self.ops() == old(self).ops().push(read_ok_op(REG_CRATE, raw)) && v
                == crate_milli_percent_per_hour(raw));
        }
        Ok(v)
    }
}

/// Driver for the MAX17058 (single cell, 78.125 uV per VCELL step).
pub struct Max17058<T> {
    bus: T,
}

impl<T: Transport> Max17058<T> {
    /// The bus transport this driver owns.
    pub closed spec fn transport(&self) -> T {
        self.bus
    }

    /// The bus transactions issued through this driver's transport,
    /// oldest first.
    pub open spec fn ops(&self) -> Seq<BusOp> {
        self.transport().ops()
    }

    /// Create a new instance of the device: wraps the transport and
    /// issues no transaction.
    pub fn new(bus: T) -> (r: Self)
        ensures
            r.transport() == bus,
    {
        Max17058 { bus }
    }

    /// Destroy the driver instance and return the bus transport,
    /// unchanged.
    pub fn destroy(self) -> (r: T)
        ensures
            r == self.transport(),
    {
        self.bus
    }

    /// Quick start: restarts fuel-gauge calculations in the same manner
    /// as initial power-up of the IC. Issues exactly one write of the
    /// quick-start command to the mode register.
    pub fn quickstart(&mut self) -> (r: Result<(), Error<T::TError>>)
        ensures
            final(self).ops() == old(self).ops().push(reg_write_op(REG_MODE, CMD_QSTRT, r is Ok)),
            r is Err ==> r matches Err(Error::I2C(_)),
    {
        write_register(&mut self.bus, REG_MODE, CMD_QSTRT)
    }

    /// Get the IC version: one read of the version register, returned
    /// verbatim with no scaling.
    pub fn version(&mut self) -> (r: Result<u16, Error<T::TError>>)
        ensures
            match r {
                Ok(v) => final(self).ops() == old(self).ops().push(read_ok_op(REG_VERSION, v)),
                Err(_) => final(self).ops() == old(self).ops().push(read_fail_op(REG_VERSION)),
            },
            r is Err ==> r matches Err(Error::I2C(_)),
    {
        read_register(&mut self.bus, REG_VERSION)
    }

    /// Get the state of charge of the cell as calculated by the
    /// device's model, in units of 1/256 percent: the register is a
    /// direct count of 1/256-percent steps.
    pub fn soc(&mut self) -> (r: Result<u16, Error<T::TError>>)
        ensures
            match r {
                Ok(v) => final(self).ops() == old(self).ops().push(read_ok_op(REG_SOC, v)),
                Err(_) => final(self).ops() == old(self).ops().push(read_fail_op(REG_SOC)),
            },
            r is Err ==> r matches Err(Error::I2C(_)),
    {
        read_register(&mut self.bus, REG_SOC)
    }

    /// Software reset: one write of the sub-family's power-on-reset
    /// command to the command register.
    pub fn reset(&mut self) -> (r: Result<(), Error<T::TError>>)
        ensures
            final(self).ops() == old(self).ops().push(reg_write_op(REG_COMMAND, CMD_POR_X8_X9, r is Ok)),
            r is Err ==> r matches Err(Error::I2C(_)),
    {
        write_register(&mut self.bus, REG_COMMAND, CMD_POR_X8_X9)
    }

    /// Get the battery voltage in nanovolts: one read of the VCELL
    /// register, each of whose steps is worth 78.125 uV.
    pub fn voltage(&mut self) -> (r: Result<u64, Error<T::TError>>)
        ensures
            match r {
                Ok(v) => exists|raw: u16|
                    final(self).ops() == old(self).ops().push(read_ok_op(REG_VCELL, raw)) && v
                        == vcell_nanovolts_x8(raw),
                Err(_) => final(self).ops() == old(self).ops().push(read_fail_op(REG_VCELL)),
            },
            r is Err ==> r matches Err(Error::I2C(_)),
    {
        let vcell = match read_register(&mut self.bus, REG_VCELL) {
            Ok(v) => v,
            Err(e) => return Err(e),
        };
        let v: u64 = (vcell as u64) * 78_125;
        proof {
            assert(self.ops() == old(self).ops().push(read_ok_op(REG_VCELL, vcell)) && v
                == vcell_nanovolts_x8(vcell));
        }
        Ok(v)
    }

    /// Set the characterization table values: unlocks the table
    /// registers, burst-writes the 64 values, and locks the registers
    /// again — five transactions in order, stopping at the first
    /// transport failure (completed steps are not rolled back, so a
    /// mid-sequence failure can leave the device unlocked; re-invoke
    /// the whole sequence to restore the locked state).
    pub fn set_table(&mut self, table: &[u16; 64]) -> (r: Result<(), Error<T::TError>>)
        ensures
            match r {
                Ok(_) => final(self).ops() == old(self).ops() + table_ops_ok(table@),
                Err(_) => exists|k: int|
                    0 <= k < 5 && final(self).ops() == old(self).ops() + table_ops_failed_at(
                        table@,
                        k,
                    ),
            },
            r is Err ==> r matches Err(Error::I2C(_)),
    {
        program_table(&mut self.bus, table)
    }
}

/// Driver for the MAX17059 (dual cell, 156.25 uV per VCELL step).
pub struct Max17059<T> {
    bus: T,
}

impl<T: Transport> Max17059<T> {
    /// The bus transport this driver owns.
    pub closed spec fn transport(&self) -> T {
        self.bus
    }

    /// The bus transactions issued through this driver's transport,
    /// oldest first.
    pub open spec fn ops(&self) -> Seq<BusOp> {
        self.transport().ops()
    }

    /// Create a new instance of the device: wraps the transport and
    /// issues no transaction.
    pub fn new(bus: T) -> (r: Self)
        ensures
            r.transport() == bus,
    {
        Max17059 { bus }
    }

    /// Destroy the driver instance and return the bus transport,
    /// unchanged.
    pub fn destroy(self) -> (r: T)
        ensures
            r == self.transport(),
    {
        self.bus
    }

    /// Quick start: restarts fuel-gauge calculations in the same manner
    /// as initial power-up of the IC. Issues exactly one write of the
    /// quick-start command to the mode register.
    pub fn quickstart(&mut self) -> (r: Result<(), Error<T::TError>>)
        ensures
            final(self).ops() == old(self).ops().push(reg_write_op(REG_MODE, CMD_QSTRT, r is Ok)),
            r is Err ==> r matches Err(Error::I2C(_)),
    {
        write_register(&mut self.bus, REG_MODE, CMD_QSTRT)
    }

    /// Get the IC version: one read of the version register, returned
    /// verbatim with no scaling.
    pub fn version(&mut self) -> (r: Result<u16, Error<T::TError>>)
        ensures
            match r {
                Ok(v) => final(self).ops() == old(self).ops().push(read_ok_op(REG_VERSION, v)),
                Err(_) => final(self).ops() == old(self).ops().push(read_fail_op(REG_VERSION)),
            },
            r is Err ==> r matches Err(Error::I2C(_)),
    {
        read_register(&mut self.bus, REG_VERSION)
    }

    /// Get the state of charge of the cell as calculated by the
    /// device's model, in units of 1/256 percent: the register is a
    /// direct count of 1/256-percent steps.
    pub fn soc(&mut self) -> (r: Result<u16, Error<T::TError>>)
        ensures
            match r {
                Ok(v) => final(self).ops() == old(self).ops().push(read_ok_op(REG_SOC, v)),
                Err(_) => final(self).ops() == old(self).ops().push(read_fail_op(REG_SOC)),
            },
            r is Err ==> r matches Err(Error::I2C(_)),
    {
        read_register(&mut self.bus, REG_SOC)
    }

    /// Software reset: one write of the sub-family's power-on-reset
    /// command to the command register.
    pub fn reset(&mut self) -> (r: Result<(), Error<T::TError>>)
        ensures
            final(self).ops() == old(self).ops().push(reg_write_op(REG_COMMAND, CMD_POR_X8_X9, r is Ok)),
            r is Err ==> r matches Err(Error::I2C(_)),
    {
        write_register(&mut self.bus, REG_COMMAND, CMD_POR_X8_X9)
    }

    /// Get the battery voltage in nanovolts: one read of the VCELL
    /// register, each of whose steps is worth 156.25 uV.
    pub fn voltage(&mut self) -> (r: Result<u64, Error<T::TError>>)
        ensures
            match r {
                Ok(v) => exists|raw: u16|
                    final(self).ops() == old(self).ops().push(read_ok_op(REG_VCELL, raw)) && v
                        == vcell_nanovolts_x9(raw),
                Err(_) => final(self).ops() == old(self).ops().push(read_fail_op(REG_VCELL)),
            },
            r is Err ==> r matches Err(Error::I2C(_)),
    {
        let vcell = match read_register(&mut self.bus, REG_VCELL) {
            Ok(v) => v,
            Err(e) => return Err(e),
        };
        let v: u64 = (vcell as u64) * 156_250;
        proof {
            assert(self.ops() == old(self).ops().push(read_ok_op(REG_VCELL, vcell)) && v
                == vcell_nanovolts_x9(vcell));
        }
        Ok(v)
    }

    /// Set the characterization table values: unlocks the table
    /// registers, burst-writes the 64 values, and locks the registers
    /// again — five transactions in order, stopping at the first
    /// transport failure (completed steps are not rolled back, so a
    /// mid-sequence failure can leave the device unlocked; re-invoke
    /// the whole sequence to restore the locked state).
    pub fn set_table(&mut self, table: &[u16; 64]) -> (r: Result<(), Error<T::TError>>)
        ensures
            match r {
                Ok(_) => final(self).ops() == old(self).ops() + table_ops_ok(table@),
                Err(_) => exists|k: int|
                    0 <= k < 5 && final(self).ops() == old(self).ops() + table_ops_failed_at(
                        table@,
                        k,
                    ),
            },
            r is Err ==> r matches Err(Error::I2C(_)),
    {
        program_table(&mut self.bus, table)
    }
}

} // verus!
