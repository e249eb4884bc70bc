//! Validation of configurations, and what is stored of them.

use crate::commands::Config;
use crate::limits::{ABS_MAX_MA, ABS_MAX_TEMP, MAX_PWM_FREQ, MIN_PWM_FREQ};
use crate::thermistor::{celsius_to_sample, sample_at};
use crate::types::{ConfigError, HeadlightError, RuntimeError};
use vstd::prelude::*;

verus! {

/// Size of a block of the storage medium, in bytes.
pub const KIBBI: u32 = 1024;

/// The block that holds the configuration.
pub const CONFIG_SECTOR: u32 = 31;

/// Offset of the first byte of the stored configuration.
pub const CONFIG_START: u32 = CONFIG_SECTOR * KIBBI;

/// Offset behind the last byte of the block that holds the configuration.
pub const CONFIG_END: u32 = CONFIG_SECTOR * KIBBI + KIBBI;

/// Why no configuration could be had, or stored.
#[derive(Debug, Clone, Copy, PartialEq, Eq, Structural)]
pub enum Error {
    /// The storage medium failed.
    Flash,
    /// The stored bytes are no configuration.
    Deserialize,
    /// The configuration breaks a bound.
    Validation(ConfigError),
}

impl From<ConfigError> for Error {
    fn from(value: ConfigError) -> (e: Self) {
        Error::Validation(value)
    }
}

impl vstd::std_specs::convert::FromSpecImpl<ConfigError> for Error {
    open spec fn obeys_from_spec() -> bool {
        true
    }

    open spec fn from_spec(value: ConfigError) -> Self {
        Error::Validation(value)
    }
}

/// Whether the temperature at which throttling stops lies below the absolute
/// maximum temperature.
pub open spec fn stop_below_maximum(throttle_stop: u8) -> bool {
    throttle_stop < 100 && sample_at(throttle_stop as int) < ABS_MAX_TEMP
}

/// The first bound that `config` breaks, in the order in which they are checked:
/// PWM frequency within the platform's range; highest target below the highest
/// load current, which lies below the platform's absolute maximum current;
/// startup target not above the highest target; a gain of at least 1; throttling
/// that starts below the temperature at which it stops, which lies below the
/// absolute maximum temperature.
pub open spec fn violation(config: Config) -> Option<ConfigError> {
    if !(MIN_PWM_FREQ <= config.pwm_freq <= MAX_PWM_FREQ) {
        Some(ConfigError::PWMFreq)
    } else if !(config.max_target_current < config.abs_max_load_current
        && config.abs_max_load_current < ABS_MAX_MA) {
        Some(ConfigError::MaxTarget)
    } else if !(config.startup_control.target <= config.max_target_current) {
        Some(ConfigError::StartupTarget)
    } else if !(config.gain >= 1) {
        Some(ConfigError::Gain)
    } else if !(config.throttle_start < config.throttle_stop && stop_below_maximum(
        config.throttle_stop,
    )) {
        Some(ConfigError::ThrottleBounds)
    } else {
        None
    }
}

/// The compiled-in configuration breaks no bound.
pub proof fn factory_is_valid()
    ensures
        violation(Config::factory()) is None,
{
}

/// A configuration that breaks no bound.
pub struct ValidatedConfig {
    inner: Config,
}

impl ValidatedConfig {
    #[verifier::type_invariant]
    spec fn holds(self) -> bool {
        violation(self.inner) is None
    }

    /// The configuration.
    pub closed spec fn view(&self) -> Config {
        self.inner
    }

    /// `config` as a validated configuration.
    pub closed spec fn of(config: Config) -> Self {
        ValidatedConfig { inner: config }
    }

    /// A validated configuration is nothing but its configuration.
    pub proof fn of_view(self)
        ensures
            Self::of(self@) == self,
            Self::of(self@)@ == self@,
    {
    }

    /// Accepts `config` where it breaks no bound, and names the first bound that
    /// it breaks where it does.
    pub fn try_from(config: Config) -> (r: Result<Self, ConfigError>)
        ensures
            r matches Ok(valid) ==> violation(config) is None && valid == Self::of(config)
                && valid@ == config,
            r matches Err(e) ==> violation(config) == Some(e),
    {
        if !(MIN_PWM_FREQ <= config.pwm_freq && config.pwm_freq <= MAX_PWM_FREQ) {
            return Err(ConfigError::PWMFreq);
        }
        if !(config.max_target_current < config.abs_max_load_current
            && config.abs_max_load_current < ABS_MAX_MA) {
            return Err(ConfigError::MaxTarget);
        }
        if !(config.startup_control.target <= config.max_target_current) {
            return Err(ConfigError::StartupTarget);
        }
        if !(config.gain >= 1) {
            return Err(ConfigError::Gain);
        }
        if !(config.throttle_start < config.throttle_stop && config.throttle_stop < 100
            && celsius_to_sample(config.throttle_stop) < ABS_MAX_TEMP) {
            return Err(ConfigError::ThrottleBounds);
        }
        Ok(ValidatedConfig { inner: config })
    }

    /// The compiled-in configuration.
    pub fn factory() -> (valid: Self)
        ensures
            valid@ == Config::factory(),
    {
        ValidatedConfig { inner: Config::default() }
    }

    /// The configuration, which breaks no bound.
    pub fn inner(self) -> (config: Config)
        ensures
            config == self@,
            violation(config) is None,
    {
        proof {
            use_type_invariant(&self);
        }
        self.inner
    }
}

/// The stored bytes for a configuration: its encoding, then zeros up to a multiple
/// of the medium's write size, one whole write size where the encoding ends on
/// such a multiple.
pub open spec fn stored_image(config: Config, write_size: usize) -> Seq<u8> {
    config.wire() + Seq::new(
        (write_size - Config::SIZE % write_size) as nat,
        |i: int| 0u8,
    )
}

/// Keeps the configuration in the storage medium `flash`.
pub struct Configurator<Flash> {
    /// The storage medium.
    pub flash: Flash,
}

impl<Flash> Configurator<Flash> {
    pub fn new(flash: Flash) -> (configurator: Self)
        ensures
            configurator.flash == flash,
    {
        Configurator { flash }
    }

    /// The configuration that the bytes read at [`CONFIG_START`] hold.
    pub fn read_config(&self, stored: &[u8]) -> (r: Result<Config, Error>)
        ensures
            stored@.len() < Config::SIZE ==> r == Err::<Config, Error>(Error::Deserialize),
            stored@.len() >= Config::SIZE ==> r == match Config::of_wire(
                stored@.subrange(0, Config::SIZE as int),
            ) {
                Some(config) => Ok::<Config, Error>(config),
                None => Err::<Config, Error>(Error::Deserialize),
            },
    {
        if stored.len() < Config::SIZE {
            return Err(Error::Deserialize);
        }
        match Config::deserialize(vstd::slice::slice_subrange(stored, 0, Config::SIZE)) {
            Some(config) => Ok(config),
            None => Err(Error::Deserialize),
        }
    }

    /// The bytes to write at [`CONFIG_START`], once the block is erased, to store
    /// `config` on a medium that is written in units of `write_size` bytes.
    pub fn write_config(&self, config: ValidatedConfig, write_size: usize) -> (image: Vec<u8>)
        requires
            0 < write_size <= usize::MAX - Config::SIZE,
        ensures
            image@ == stored_image(config@, write_size),
    {
        let mut image = config.inner().serialize();
        let padding = write_size - Config::SIZE % write_size;
        let mut i: usize = 0;
        while i < padding
            invariant
                i <= padding,
                image@ == config@.wire() + Seq::new(i as nat, |k: int| 0u8),
            decreases padding - i,
        {
            image.push(0);
            i += 1;
        }
        image
    }

    /// Decides which configuration the device runs with: the stored one where it
    /// was read and breaks no bound, the compiled-in one otherwise, together with
    /// the error to report.
    pub fn load_config(&self, stored: Result<Config, Error>) -> (r: (
        ValidatedConfig,
        Option<HeadlightError>,
    ))
        ensures
            r.0@ == active_config(stored),
            r.1 == boot_error(stored),
    {
        match stored {
            Ok(config) => match ValidatedConfig::try_from(config) {
                Ok(valid) => (valid, None),
                Err(e) => (ValidatedConfig::factory(), Some(HeadlightError::Config { e })),
            },
            Err(_) => (
                ValidatedConfig::factory(),
                Some(HeadlightError::Runtime { e: RuntimeError::Flash }),
            ),
        }
    }
}

/// The configuration that a device runs with, given what was read from storage.
pub open spec fn active_config(stored: Result<Config, Error>) -> Config {
    match stored {
        Ok(config) => if violation(config) is None {
            config
        } else {
            Config::factory()
        },
        Err(_) => Config::factory(),
    }
}

/// The error that a device reports at boot, given what was read from storage.
pub open spec fn boot_error(stored: Result<Config, Error>) -> Option<HeadlightError> {
    match stored {
        Ok(config) => match violation(config) {
            None => None,
            Some(e) => Some(HeadlightError::Config { e }),
        },
        Err(_) => Some(HeadlightError::Runtime { e: RuntimeError::Flash }),
    }
}

} // verus!
