//! The bus transport capability that the drivers consume.

use vstd::prelude::*;
use crate::types::BusOp;

verus! {

/// A two-wire bus transport: the one external collaborator of this
/// driver, to be supplied by the caller (for real hardware, an adapter
/// over an I2C bus implementation; for tests, a scripted transport).
///
/// Each method issues exactly one bus transaction and appends it to the
/// transport's transaction log `ops()`, with the success flag matching
/// the returned result; a failed call still counts as one issued
/// transaction. The driver's guarantees about what reaches the wire hold
/// for implementations that meet these contracts; implementations
/// outside this crate are not themselves verified.
pub trait Transport: Sized {
    /// The transport's own error value, surfaced verbatim on failure.
    type TError;

    /// The transactions issued through this transport so far, oldest
    /// first.
    spec fn ops(&self) -> Seq<BusOp>;

    /// Issue one write transaction carrying exactly `payload` to the
    /// 7-bit device address `address`.
    fn bus_write(&mut self, address: u8, payload: &Vec<u8>) -> (r: Result<(), Self::TError>)
        ensures
            final(self).ops() == old(self).ops().push(BusOp::Write {
                addr: address,
                bytes: payload@,
                ok: r is Ok,
            }),
    ;

    /// Issue one write-read transaction to the 7-bit device address
    /// `address`: write the single register-address byte `register`,
    /// then read two bytes back, returned in bus order.
    fn bus_write_read(&mut self, address: u8, register: u8) -> (r: Result<(u8, u8), Self::TError>)
        ensures
            final(self).ops() == old(self).ops().push(match r {
                Ok(d) => BusOp::Read {
                    addr: address,
                    reg: register,
                    data: seq![d.0, d.1],
                    ok: true,
                },
                Err(_) => BusOp::Read {
                    addr: address,
                    reg: register,
                    data: Seq::empty(),
                    ok: false,
                },
            }),
    ;
}

} // verus!
