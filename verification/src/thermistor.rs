//! Thermistor conversion between degrees Celsius and raw ADC samples.

use vstd::prelude::*;

verus! {

/// Number of entries of the conversion table: one per 5 °C step from 0 °C to 95 °C.
pub const LUT_LEN: usize = 20;

/// The ADC sample measured at `5 * index` degrees Celsius.
pub open spec fn lut(index: int) -> u16 {
    if index == 0 { 111 }
    else if index == 1 { 144 }
    else if index == 2 { 186 }
    else if index == 3 { 236 }
    else if index == 4 { 298 }
    else if index == 5 { 372 }
    else if index == 6 { 459 }
    else if index == 7 { 559 }
    else if index == 8 { 675 }
    else if index == 9 { 804 }
    else if index == 10 { 948 }
    else if index == 11 { 1104 }
    else if index == 12 { 1271 }
    else if index == 13 { 1446 }
    else if index == 14 { 1626 }
    else if index == 15 { 1809 }
    else if index == 16 { 1991 }
    else if index == 17 { 2170 }
    else if index == 18 { 2344 }
    else { 2511 }
}

/// The sample that the thermistor gives at `celsius` degrees, to the 5 °C step below.
pub open spec fn sample_at(celsius: int) -> u16 {
    lut(celsius / 5)
}

fn table() -> (t: [u16; 20])
    ensures
        forall|i: int| 0 <= i < 20 ==> t[i] == lut(i),
{
    [
        111, 144, 186, 236, 298, 372, 459, 559, 675, 804, 948, 1104, 1271, 1446, 1626, 1809,
        1991, 2170, 2344, 2511,
    ]
}

/// Converts a temperature in degrees Celsius to the raw sample of the thermistor.
/// The table ends at 95 °C, so temperatures from 100 °C on have no sample.
pub fn celsius_to_sample(celsius: u8) -> (sample: u16)
    requires
        celsius < 100,
    ensures
        sample == sample_at(celsius as int),
{
    let t = table();
    let index: usize = (celsius / 5) as usize;
    t[index]
}

/// The table rises: a higher temperature gives a higher sample.
pub proof fn lut_rises(i: int, j: int)
    requires
        0 <= i < j < LUT_LEN,
    ensures
        lut(i) < lut(j),
{
}

/// The last table entry from `from` on that is not above `sample`.
pub open spec fn step_below(sample: u16, from: int) -> int
    decreases LUT_LEN - from,
{
    if from + 1 >= LUT_LEN || sample < lut(from + 1) {
        from
    } else {
        step_below(sample, from + 1)
    }
}

/// The temperature, in degrees Celsius, at which the thermistor gives `sample`:
/// 0 below the table, and between two entries the lower entry's temperature plus
/// its share of the 5 °C step, rounded down.
pub open spec fn celsius_at(sample: u16) -> int {
    if sample <= lut(0) {
        0
    } else {
        let i = step_below(sample, 0);
        if i + 1 >= LUT_LEN {
            5 * i
        } else {
            5 * i + 5 * (sample - lut(i)) / (lut(i + 1) - lut(i))
        }
    }
}

/// Converts a raw sample of the thermistor to degrees Celsius. The table ends at
/// the sample of 95 °C, so higher samples have no temperature.
pub fn sample_to_celsius(sample: u16) -> (celsius: u8)
    requires
        sample <= lut(LUT_LEN - 1),
    ensures
        celsius == celsius_at(sample),
        celsius <= 95,
{
    let t = table();
    if sample <= t[0] {
        return 0;
    }
    let mut i: usize = 0;
    while i + 1 < LUT_LEN && sample >= t[i + 1]
        invariant
            i < LUT_LEN,
            forall|k: int| 0 <= k < 20 ==> t[k] == lut(k),
            lut(i as int) <= sample,
            step_below(sample, i as int) == step_below(sample, 0),
        decreases LUT_LEN - i,
    {
        i += 1;
    }
    if i + 1 >= LUT_LEN {
        (5 * i) as u8
    } else {
        let lower = t[i];
        let upper = t[i + 1];
        proof {
            lut_rises(i as int, i + 1);
            lut_bounds(i as int);
            lut_bounds(i + 1);
        }
        let share: u16 = 5 * (sample - lower) / (upper - lower);
        assert(share < 5) by (nonlinear_arith)
            requires
                share == 5 * (sample - lower) / (upper - lower),
                lower <= sample < upper,
        ;
        (share + 5 * (i as u16)) as u8
    }
}

/// Every table entry is a sample that a 12-bit converter can give.
pub proof fn lut_bounds(i: int)
    requires
        0 <= i < LUT_LEN,
    ensures
        111 <= lut(i) <= 2511,
{
}

/// Converting a temperature to a sample and back gives the temperature's 5 °C
/// step.
pub proof fn celsius_round_trip(celsius: u8)
    requires
        celsius < 100,
    ensures
        celsius_at(sample_at(celsius as int)) == 5 * (celsius / 5),
{
    let i = celsius as int / 5;
    step_below_entry(i, 0);
}

/// The search for an entry's own sample ends at that entry.
proof fn step_below_entry(i: int, from: int)
    requires
        0 <= from <= i < LUT_LEN,
    ensures
        step_below(lut(i), from) == i,
    decreases i - from,
{
    if from < i {
        if from + 1 < i {
            lut_rises(from + 1, i);
        }
        step_below_entry(i, from + 1);
    } else if i + 1 < LUT_LEN {
        lut_rises(i, i + 1);
    }
}

} // verus!
