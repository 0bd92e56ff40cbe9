//! Platform-agnostic driver for the MAX170xx family of single-/dual-cell
//! Li+ battery fuel gauges (MAX17043, MAX17044, MAX17048, MAX17049,
//! MAX17058, MAX17059), which communicate over a two-wire (I2C) bus.
//!
//! Every logical register of the device is a pair of consecutive byte
//! addresses holding one big-endian 16-bit value; all traffic goes to
//! the fixed 7-bit device address. The drivers are generic over a
//! [`Transport`] capability — two primitive bus operations with
//! contracts over a ghost log of issued transactions — so each driver
//! method's contract pins the exact byte sequences put on the wire,
//! including the five-transaction unlock/burst/lock sequence that
//! programs the 64-entry characterization table, together with the
//! arithmetic that scales raw register words into physical units.
//!
//! Physical quantities are returned as exact integers in fixed units:
//! state of charge in units of 1/256 percent, cell voltage in
//! nanovolts, and charge rate in thousandths of a percent per hour.

mod types;
pub use crate::types::{high_byte, lemma_word_split_roundtrip, low_byte, word_from, BusOp, Error};
mod transport;
pub use crate::transport::Transport;
mod register_access;
pub use crate::register_access::{
    raw_write_op, read_fail_op, read_ok_op, reg_write_bytes, reg_write_op, ADDR, CMD_POR_43_44,
    CMD_POR_X8_X9, CMD_QSTRT, REG_COMMAND, REG_CONFIG, REG_CRATE, REG_MODE, REG_SOC, REG_VCELL,
    REG_VERSION,
};
mod scripted;
pub use crate::scripted::{RecordedCall, ScriptItem, ScriptedTransport};
mod conversion;
pub use crate::conversion::{
    crate_milli_percent_per_hour, lemma_charge_rate_sign, lemma_vcell_scale_43_44,
    lemma_vcell_scale_x8_x9, signed16, vcell_nanovolts_43, vcell_nanovolts_44, vcell_nanovolts_x8,
    vcell_nanovolts_x9,
};
mod max17043_44;
pub use crate::max17043_44::{Max17043, Max17044};
mod max170x8_x9;
pub use crate::max170x8_x9::{
    table_burst_bytes, table_burst_payload, table_data_bytes, table_ops_failed_at, table_ops_ok,
    table_txn_bytes, Max17048, Max17049, Max17058, Max17059, REG_TABLE_UNLOCK_1,
    REG_TABLE_UNLOCK_2, TABLE_BASE, TABLE_LOCK_VALUE, TABLE_UNLOCK_KEY_1, TABLE_UNLOCK_KEY_2,
};
