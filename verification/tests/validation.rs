use headlight::commands::{Config, Control};
use headlight::config::{
    Configurator, Error, ValidatedConfig, CONFIG_END, CONFIG_SECTOR, CONFIG_START, KIBBI,
};
use headlight::types::{ConfigError, HeadlightError, RuntimeError};

fn rejected(config: Config) -> Option<ConfigError> {
    match ValidatedConfig::try_from(config) {
        Ok(_) => None,
        Err(e) => Some(e),
    }
}

#[test]
fn default_config_is_valid() {
    let valid = ValidatedConfig::try_from(Config::default());
    assert!(valid.is_ok());
    assert_eq!(valid.ok().map(|v| v.inner()), Some(Config::default()));
    assert_eq!(ValidatedConfig::factory().inner(), Config::default());
}

#[test]
fn pwm_frequency_below_the_minimum_is_rejected() {
    let config = Config { pwm_freq: 40, ..Config::default() };
    assert_eq!(rejected(config), Some(ConfigError::PWMFreq));
}

#[test]
fn max_target_not_below_the_absolute_maximum_is_rejected() {
    let config = Config {
        pwm_freq: 300,
        max_target_current: 100,
        abs_max_load_current: 90,
        ..Config::default()
    };
    assert_eq!(rejected(config), Some(ConfigError::MaxTarget));
}

#[test]
fn pwm_frequency_bounds() {
    assert_eq!(rejected(Config { pwm_freq: 49, ..Config::default() }), Some(ConfigError::PWMFreq));
    assert_eq!(rejected(Config { pwm_freq: 50, ..Config::default() }), None);
    assert_eq!(rejected(Config { pwm_freq: 500, ..Config::default() }), None);
    assert_eq!(rejected(Config { pwm_freq: 501, ..Config::default() }), Some(ConfigError::PWMFreq));
}

#[test]
fn max_target_bounds() {
    let at = Config { max_target_current: 100, abs_max_load_current: 100, ..Config::default() };
    assert_eq!(rejected(at), Some(ConfigError::MaxTarget));
    let below = Config { max_target_current: 99, abs_max_load_current: 100, ..Config::default() };
    assert_eq!(rejected(below), None);
}

#[test]
fn load_current_is_held_below_the_platform_maximum() {
    let highest = Config { abs_max_load_current: 999, ..Config::default() };
    assert_eq!(rejected(highest), None);
    let at = Config { abs_max_load_current: 1000, ..Config::default() };
    assert_eq!(rejected(at), Some(ConfigError::MaxTarget));
    let far = Config { abs_max_load_current: 65535, ..Config::default() };
    assert_eq!(rejected(far), Some(ConfigError::MaxTarget));
}

#[test]
fn startup_target_bounds() {
    let at = Config { startup_control: Control { target: 50 }, ..Config::default() };
    assert_eq!(rejected(at), None);
    let above = Config { startup_control: Control { target: 51 }, ..Config::default() };
    assert_eq!(rejected(above), Some(ConfigError::StartupTarget));
}

#[test]
fn gain_bounds() {
    assert_eq!(rejected(Config { gain: 0, ..Config::default() }), Some(ConfigError::Gain));
    assert_eq!(rejected(Config { gain: 1, ..Config::default() }), None);
    assert_eq!(rejected(Config { gain: 255, ..Config::default() }), None);
}

#[test]
fn throttle_bounds() {
    let equal = Config { throttle_start: 60, throttle_stop: 60, ..Config::default() };
    assert_eq!(rejected(equal), Some(ConfigError::ThrottleBounds));
    let reversed = Config { throttle_start: 61, throttle_stop: 60, ..Config::default() };
    assert_eq!(rejected(reversed), Some(ConfigError::ThrottleBounds));
    let highest = Config { throttle_start: 50, throttle_stop: 94, ..Config::default() };
    assert_eq!(rejected(highest), None);
    let at_maximum = Config { throttle_start: 50, throttle_stop: 95, ..Config::default() };
    assert_eq!(rejected(at_maximum), Some(ConfigError::ThrottleBounds));
    let beyond_table = Config { throttle_start: 50, throttle_stop: 100, ..Config::default() };
    assert_eq!(rejected(beyond_table), Some(ConfigError::ThrottleBounds));
    let far_beyond = Config { throttle_start: 50, throttle_stop: 255, ..Config::default() };
    assert_eq!(rejected(far_beyond), Some(ConfigError::ThrottleBounds));
}

#[test]
fn first_broken_bound_is_named() {
    let all_wrong = Config {
        enabled: true,
        startup_control: Control { target: 500 },
        gain: 0,
        pwm_freq: 10,
        max_target_current: 100,
        abs_max_load_current: 90,
        throttle_start: 70,
        throttle_stop: 60,
    };
    assert_eq!(rejected(all_wrong), Some(ConfigError::PWMFreq));
    let config = Config { pwm_freq: 300, ..all_wrong };
    assert_eq!(rejected(config), Some(ConfigError::MaxTarget));
    let config = Config { abs_max_load_current: 600, ..config };
    assert_eq!(rejected(config), Some(ConfigError::StartupTarget));
    let config = Config { startup_control: Control { target: 100 }, ..config };
    assert_eq!(rejected(config), Some(ConfigError::Gain));
    let config = Config { gain: 2, ..config };
    assert_eq!(rejected(config), Some(ConfigError::ThrottleBounds));
    let config = Config { throttle_start: 40, ..config };
    assert_eq!(rejected(config), None);
}

#[test]
fn validation_error_converts() {
    assert_eq!(Error::from(ConfigError::Gain), Error::Validation(ConfigError::Gain));
}

#[test]
fn storage_layout() {
    assert_eq!(KIBBI, 1024);
    assert_eq!(CONFIG_SECTOR, 31);
    assert_eq!(CONFIG_START, 31744);
    assert_eq!(CONFIG_END, 32768);
}

#[test]
fn read_config_decodes_the_stored_bytes() {
    let configurator = Configurator::new(());
    let mut stored = Config::default().serialize();
    assert_eq!(configurator.read_config(&stored), Ok(Config::default()));
    stored.extend_from_slice(&[0, 0, 0, 0]);
    assert_eq!(configurator.read_config(&stored), Ok(Config::default()));
    assert_eq!(configurator.read_config(&stored[..11]), Err(Error::Deserialize));
    assert_eq!(configurator.read_config(&[0xff; 12]), Err(Error::Deserialize));
    assert_eq!(configurator.read_config(&[]), Err(Error::Deserialize));
}

#[test]
fn write_config_pads_to_the_write_size() {
    let configurator = Configurator::new(());
    let mut expected = Config::default().serialize();
    expected.extend_from_slice(&[0, 0]);
    assert_eq!(configurator.write_config(ValidatedConfig::factory(), 2), expected);
    let mut expected = Config::default().serialize();
    expected.extend_from_slice(&[0, 0, 0, 0]);
    assert_eq!(configurator.write_config(ValidatedConfig::factory(), 8), expected);
    let mut expected = Config::default().serialize();
    expected.extend_from_slice(&[0]);
    assert_eq!(configurator.write_config(ValidatedConfig::factory(), 1), expected);
    assert_eq!(configurator.write_config(ValidatedConfig::factory(), 5).len(), 15);
}

#[test]
fn load_config_takes_a_valid_stored_config() {
    let configurator = Configurator::new(());
    let stored = Config { enabled: true, pwm_freq: 100, ..Config::default() };
    let (config, error) = configurator.load_config(Ok(stored));
    assert_eq!(config.inner(), stored);
    assert_eq!(error, None);
}

#[test]
fn load_config_replaces_an_invalid_stored_config() {
    let configurator = Configurator::new(());
    let stored = Config { enabled: true, pwm_freq: 40, ..Config::default() };
    let (config, error) = configurator.load_config(Ok(stored));
    assert_eq!(config.inner(), Config::default());
    assert_eq!(error, Some(HeadlightError::Config { e: ConfigError::PWMFreq }));
}

#[test]
fn load_config_replaces_an_unreadable_config() {
    let configurator = Configurator::new(());
    let (config, error) = configurator.load_config(Err(Error::Flash));
    assert_eq!(config.inner(), Config::default());
    assert_eq!(error, Some(HeadlightError::Runtime { e: RuntimeError::Flash }));
    let (config, error) = configurator.load_config(Err(Error::Deserialize));
    assert_eq!(config.inner(), Config::default());
    assert_eq!(error, Some(HeadlightError::Runtime { e: RuntimeError::Flash }));
}
