//! Pure conversions from raw register words to physical units.
//!
//! Voltages are expressed in nanovolts so that every variant's scale is
//! exact: the MAX17043 counts 1.25 mV per step of the 12 significant
//! VCELL bits, the MAX17044 2.5 mV; the MAX17048/58 count 78.125 uV per
//! VCELL step, the MAX17049/59 156.25 uV. The charge rate counts 0.208
//! percent per hour per step, exact in thousandths of a percent.

use vstd::prelude::*;

verus! {

/// Cell voltage in nanovolts for a raw MAX17043 VCELL word: the top 12
/// bits are significant, each worth 1.25 mV.
pub open spec fn vcell_nanovolts_43(raw: u16) -> int {
    (raw >> 4) * 1_250_000
}

/// Cell voltage in nanovolts for a raw MAX17044 VCELL word: the top 12
/// bits are significant, each worth 2.5 mV.
pub open spec fn vcell_nanovolts_44(raw: u16) -> int {
    (raw >> 4) * 2_500_000
}

/// Cell voltage in nanovolts for a raw MAX17048/MAX17058 VCELL word:
/// all 16 bits are significant, each worth 5/64000 V.
pub open spec fn vcell_nanovolts_x8(raw: u16) -> int {
    raw * 78_125
}

/// Cell voltage in nanovolts for a raw MAX17049/MAX17059 VCELL word:
/// all 16 bits are significant, each worth 5/32000 V.
pub open spec fn vcell_nanovolts_x9(raw: u16) -> int {
    raw * 156_250
}

/// A raw register word reinterpreted as a signed two's-complement value.
pub open spec fn signed16(raw: u16) -> int {
    if raw < 0x8000 {
        raw as int
    } else {
        raw - 0x10000
    }
}

/// Charge/discharge rate in thousandths of a percent per hour for a raw
/// CRATE word: the word counts signed steps of 0.208 percent per hour.
pub open spec fn crate_milli_percent_per_hour(raw: u16) -> int {
    signed16(raw) * 208
}

/// Within the first sub-family, the MAX17044 (dual cell) reports twice
/// the voltage of the MAX17043 for the same raw word: its per-step
/// spacing is double.
pub proof fn lemma_vcell_scale_43_44(raw: u16)
    ensures
        vcell_nanovolts_44(raw) == 2 * vcell_nanovolts_43(raw),
{
}

/// Within the second sub-family, the MAX17049/MAX17059 (dual cell)
/// report twice the voltage of the MAX17048/MAX17058 for the same raw
/// word: their per-step spacing is double.
pub proof fn lemma_vcell_scale_x8_x9(raw: u16)
    ensures
        vcell_nanovolts_x9(raw) == 2 * vcell_nanovolts_x8(raw),
{
}

/// The charge rate is signed: words with the top bit clear decode to a
/// non-negative rate (charging or idle), words with the top bit set to a
/// negative rate (discharging), and zero decodes to zero.
pub proof fn lemma_charge_rate_sign(raw: u16)
    ensures
        raw == 0 ==> crate_milli_percent_per_hour(raw) == 0,
        0 < raw < 0x8000 ==> crate_milli_percent_per_hour(raw) > 0,
        raw >= 0x8000 ==> crate_milli_percent_per_hour(raw) < 0,
{
}

} // verus!
