//! Error type, byte-packing helpers, and the ghost model of bus
//! transactions.

use vstd::prelude::*;

verus! {

/// All possible errors in this crate.
#[derive(Debug)]
pub enum Error<E> {
    /// I2C bus error, wrapping the transport's own error value.
    I2C(E),
}

/// One bus transaction as recorded in a transport's ghost log: either a
/// plain write of a byte sequence, or a register read (a one-byte
/// register-address write followed by a two-byte read, in one
/// transaction). `addr` is the 7-bit device address the transaction was
/// directed to.
pub enum BusOp {
    /// A write transaction carrying `bytes`; `ok` records whether the
    /// transport reported success.
    Write { addr: u8, bytes: Seq<u8>, ok: bool },
    /// A write-read transaction selecting register `reg`; `data` holds
    /// the two bytes received on success, and is empty when `ok` is
    /// false.
    Read { addr: u8, reg: u8, data: Seq<u8>, ok: bool },
}

/// The high byte of a big-endian 16-bit register value.
pub open spec fn high_byte(value: u16) -> u8 {
    (value / 256) as u8
}

/// The low byte of a big-endian 16-bit register value.
pub open spec fn low_byte(value: u16) -> u8 {
    (value % 256) as u8
}

/// The 16-bit value formed big-endian from two bytes.
pub open spec fn word_from(hi: u8, lo: u8) -> u16 {
    (hi * 256 + lo) as u16
}

/// Splitting a 16-bit word into its big-endian bytes and recombining
/// them yields the word back: the two-byte state-of-charge encoding
/// (integer percent byte plus 1/256-percent fraction byte) denotes the
/// same count of 1/256 units as the whole word, so both sub-families
/// decode their state-of-charge register alike.
pub proof fn lemma_word_split_roundtrip(value: u16)
    ensures
        word_from(high_byte(value), low_byte(value)) == value,
{
}

} // verus!
