//! What the platform allows, whatever the configuration says.

use crate::commands::Properties;
use crate::types::{Firmware, Hardware, Version};
use vstd::prelude::*;

verus! {

/// Lowest PWM frequency that can be configured.
pub const MIN_PWM_FREQ: u16 = 50;

/// Highest PWM frequency that can be configured.
pub const MAX_PWM_FREQ: u16 = 500;

/// Absolute maximum current, in mA.
pub const ABS_MAX_MA: u16 = 1_000;

/// Largest error of a current measurement, in mA.
pub const EPSILON: u16 = 10;

/// Absolute maximum temperature: the thermistor's sample at 95 °C.
pub const ABS_MAX_TEMP: u16 = 2511;

/// The properties that a device of this hardware and firmware publishes.
pub open spec fn device_properties() -> Properties {
    Properties {
        version: Version { hw: Hardware::V2Rev3, fw: Firmware::V0P1 },
        abs_max_ma: ABS_MAX_MA,
        abs_max_temp: ABS_MAX_TEMP,
        min_pwm_freq: MIN_PWM_FREQ,
        max_pwm_freq: MAX_PWM_FREQ,
        max_adc_error: EPSILON,
    }
}

/// The properties that a device of this hardware and firmware publishes.
pub fn properties() -> (properties: Properties)
    ensures
        properties == device_properties(),
{
    Properties {
        version: Version { hw: Hardware::V2Rev3, fw: Firmware::V0P1 },
        abs_max_ma: ABS_MAX_MA,
        abs_max_temp: ABS_MAX_TEMP,
        min_pwm_freq: MIN_PWM_FREQ,
        max_pwm_freq: MAX_PWM_FREQ,
        max_adc_error: EPSILON,
    }
}

} // verus!
