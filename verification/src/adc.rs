//! Conversion of raw ADC samples to the current through the load.

use vstd::prelude::*;

verus! {

/// The internal reference voltage of the converter, in mV.
pub const VREFINT_MV: u32 = 1230;

/// Gain of the current-sense amplifier.
pub const GAIN: u32 = 10;

/// The shunt resistor, in units that make `mv * GAIN / R_SHUNT` a current in mA.
pub const R_SHUNT: u32 = 33;

/// The voltage that `sample` stands for, given the sample of the reference.
pub open spec fn mv_of(sample: u16, vref: u16) -> Option<u16> {
    if vref == 0 {
        None
    } else if sample * VREFINT_MV / (vref as int) > u16::MAX {
        None
    } else {
        Some((sample * VREFINT_MV / (vref as int)) as u16)
    }
}

/// The current that makes the sense amplifier put out `mv`.
pub open spec fn ma_of(mv: u16) -> Option<u16> {
    if mv * GAIN > u16::MAX {
        None
    } else {
        Some((mv * GAIN / R_SHUNT as int) as u16)
    }
}

/// Converts a sample to mV against the sample of the internal reference. There
/// is no result where the reference sample is zero or the voltage is beyond
/// `u16`.
pub fn sample_to_mv(sample: u16, vref: u16) -> (mv: Option<u16>)
    ensures
        mv == mv_of(sample, vref),
{
    if vref == 0 {
        return None;
    }
    let product: u32 = (sample as u32) * VREFINT_MV;
    let quotient: u32 = product / (vref as u32);
    if quotient > u16::MAX as u32 {
        None
    } else {
        Some(quotient as u16)
    }
}

/// Converts the amplifier's output in mV to the load current in mA. There is no
/// result where `mv * GAIN` is beyond `u16`.
pub fn mv_to_ma(mv: u16) -> (ma: Option<u16>)
    ensures
        ma == ma_of(mv),
{
    let product: u32 = (mv as u32) * GAIN;
    if product > u16::MAX as u32 {
        None
    } else {
        Some((product / R_SHUNT) as u16)
    }
}

} // verus!
