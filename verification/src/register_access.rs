//! Register catalog and the register access primitives shared by every
//! device variant.

use vstd::prelude::*;
use crate::transport::Transport;
use crate::types::{high_byte, low_byte, BusOp, Error};

verus! {

/// Fixed 7-bit bus address shared by every device of the family.
pub const ADDR: u8 = 0x36;

/// Raw measured cell voltage.
pub const REG_VCELL: u8 = 0x02;
/// State of charge as computed by the device's model.
pub const REG_SOC: u8 = 0x04;
/// Mode register; quick-start commands go here.
pub const REG_MODE: u8 = 0x06;
/// IC production version.
pub const REG_VERSION: u8 = 0x08;
/// Configuration register.
pub const REG_CONFIG: u8 = 0x0C;
/// Signed charge/discharge rate.
pub const REG_CRATE: u8 = 0x16;
/// Command register; power-on-reset commands go here.
pub const REG_COMMAND: u8 = 0xFE;

/// Quick-start command payload, written to the mode register.
pub const CMD_QSTRT: u16 = 0x4000;
/// Power-on-reset payload for the MAX17043/MAX17044 sub-family.
pub const CMD_POR_43_44: u16 = 0x0054;
/// Power-on-reset payload for the MAX17048/49/58/59 sub-family.
pub const CMD_POR_X8_X9: u16 = 0x5400;

/// The three bytes sent on the bus for a 16-bit register write:
/// register address, then the value big-endian.
pub open spec fn reg_write_bytes(register: u8, value: u16) -> Seq<u8> {
    seq![register, high_byte(value), low_byte(value)]
}

/// A write transaction to the device carrying `bytes`, with success
/// flag `okd`.
pub open spec fn raw_write_op(bytes: Seq<u8>, okd: bool) -> BusOp {
    BusOp::Write { addr: ADDR, bytes, ok: okd }
}

/// A 16-bit register write transaction to the device, with success
/// flag `okd`.
pub open spec fn reg_write_op(register: u8, value: u16, okd: bool) -> BusOp {
    raw_write_op(reg_write_bytes(register, value), okd)
}

/// A successful read of `register` that received the 16-bit value
/// `word` big-endian.
pub open spec fn read_ok_op(register: u8, word: u16) -> BusOp {
    BusOp::Read {
        addr: ADDR,
        reg: register,
        data: seq![high_byte(word), low_byte(word)],
        ok: true,
    }
}

/// A failed read of `register`.
pub open spec fn read_fail_op(register: u8) -> BusOp {
    BusOp::Read { addr: ADDR, reg: register, data: Seq::empty(), ok: false }
}

/// Issue one write transaction carrying `payload` to the device,
/// wrapping a transport failure as a bus error.
pub(crate) fn write_bytes<T: Transport>(t: &mut T, payload: &Vec<u8>) -> (r: Result<
    (),
    Error<T::TError>,
>)
    ensures
        final(t).ops() == old(t).ops().push(raw_write_op(payload@, r is Ok)),
        r is Err ==> r matches Err(Error::I2C(_)),
{
    match t.bus_write(ADDR, payload) {
        Ok(()) => Ok(()),
        Err(e) => Err(Error::I2C(e)),
    }
}

/// Read the 16-bit register at `register`: one write-read exchange,
/// combining the two bytes received big-endian.
pub(crate) fn read_register<T: Transport>(t: &mut T, register: u8) -> (r: Result<
    u16,
    Error<T::TError>,
>)
    ensures
        match r {
            Ok(v) => final(t).ops() == old(t).ops().push(read_ok_op(register, v)),
            Err(_) => final(t).ops() == old(t).ops().push(read_fail_op(register)),
        },
        r is Err ==> r matches Err(Error::I2C(_)),
{
    match t.bus_write_read(ADDR, register) {
        Ok((hi, lo)) => {
            let value: u16 = (hi as u16) * 256 + (lo as u16);
            proof {
                assert(high_byte(value) == hi);
                assert(low_byte(value) == lo);
                assert(seq![hi, lo] =~= seq![high_byte(value), low_byte(value)]);
            }
            Ok(value)
        }
        Err(e) => Err(Error::I2C(e)),
    }
}

/// Write the 16-bit value to the register at `register`: one write
/// transaction of the address byte followed by the value big-endian.
pub(crate) fn write_register<T: Transport>(t: &mut T, register: u8, value: u16) -> (r: Result<
    (),
    Error<T::TError>,
>)
    ensures
        final(t).ops() == old(t).ops().push(reg_write_op(register, value, r is Ok)),
        r is Err ==> r matches Err(Error::I2C(_)),
{
    let mut payload: Vec<u8> = Vec::new();
    payload.push(register);
    payload.push((value / 256) as u8);
    payload.push((value % 256) as u8);
    proof {
        assert(payload@ =~= reg_write_bytes(register, value));
    }
    write_bytes(t, &payload)
}

/// Write a single byte to the register at `register`: one write
/// transaction of the address byte followed by the payload byte. Used
/// only for the characterization-table unlock/lock handshake.
pub(crate) fn write_u8_register<T: Transport>(t: &mut T, register: u8, value: u8) -> (r: Result<
    (),
    Error<T::TError>,
>)
    ensures
        final(t).ops() == old(t).ops().push(raw_write_op(seq![register, value], r is Ok)),
        r is Err ==> r matches Err(Error::I2C(_)),
{
    let mut payload: Vec<u8> = Vec::new();
    payload.push(register);
    payload.push(value);
    proof {
        assert(payload@ =~= seq![register, value]);
    }
    write_bytes(t, &payload)
}

} // verus!
