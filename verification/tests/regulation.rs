use headlight::commands::{Config, Control, Monitor, Status};
use headlight::regulation::{
    LoopState, Mailbox, Next, Regulator, RegulatorHardware, RegulatorProxy,
};
use headlight::types::{HeadlightError, Mode, RuntimeError};

fn hardware() -> RegulatorHardware {
    RegulatorHardware { pwm_steps: 1000, duty: 0, pwm: false, enable: false, fault: false }
}

/// Start of throttling at sample 948 (50 °C), stop at 1271 (60 °C), highest
/// target 50, highest load current 100, highest duty 999.
fn regulator() -> Regulator {
    Regulator::new(hardware(), &Config::default())
}

fn running(target: u16) -> LoopState {
    LoopState {
        control: Control { target },
        duty: 0,
        upper_current: 0,
        lower_current: 0,
        status: Status { mode: Mode::Running, error: HeadlightError::NoError },
    }
}

#[test]
fn mailbox_starts_empty() {
    let mailbox: Mailbox<u8> = Mailbox::new();
    assert!(!mailbox.signaled());
    assert_eq!(mailbox.slot, None);
}

#[test]
fn mailbox_delivers_what_was_signaled() {
    let mut mailbox = Mailbox::new();
    mailbox.signal(7u8);
    assert!(mailbox.signaled());
    assert_eq!(mailbox.wait(), 7);
    assert!(!mailbox.signaled());
}

#[test]
fn mailbox_latest_value_wins() {
    let mut mailbox = Mailbox::new();
    mailbox.signal(1u8);
    mailbox.signal(2u8);
    assert_eq!(mailbox.wait(), 2);
    assert!(!mailbox.signaled());
    assert_eq!(mailbox.slot, None);
}

#[test]
fn proxy_starts_empty() {
    let mut proxy = RegulatorProxy::new();
    assert!(!proxy.control.signaled());
    assert!(!proxy.monitor.signaled());
    assert!(!proxy.status.signaled());
    assert!(!proxy.shutdown_start.signaled());
    assert!(!proxy.shutdown_confirm.signaled());
    assert_eq!(proxy.get_monitor_immediately(), None);
    assert_eq!(proxy.wait_for_new_status(), None);
    assert!(!proxy.shutdown_confirmed());
}

#[test]
fn proxy_hands_on_the_latest_control() {
    let mut proxy = RegulatorProxy::new();
    proxy.set_control(Control { target: 10 });
    proxy.set_control(Control { target: 20 });
    assert_eq!(proxy.control.slot, Some(Control { target: 20 }));
}

#[test]
fn proxy_monitor_is_read_once() {
    let mut proxy = RegulatorProxy::new();
    let monitor = Monitor { duty: 1, upper_current: 2, lower_current: 3, temperature: 4 };
    proxy.monitor.signal(monitor);
    assert_eq!(proxy.get_monitor_immediately(), Some(monitor));
    assert_eq!(proxy.get_monitor_immediately(), None);
}

#[test]
fn proxy_shutdown_handshake() {
    let mut proxy = RegulatorProxy::new();
    proxy.shutdown();
    assert!(proxy.shutdown_start.signaled());
    assert!(!proxy.shutdown_confirmed());
    proxy.shutdown_confirm.signal(());
    assert!(proxy.shutdown_confirmed());
    assert!(!proxy.shutdown_confirmed());
    assert!(proxy.shutdown_start.signaled());
}

#[test]
fn regulator_takes_its_limits_from_the_config() {
    let regulator = regulator();
    assert_eq!(regulator.max_target, 50);
    assert_eq!(regulator.max_current, 100);
    assert_eq!(regulator.max_duty, 999);
    assert_eq!(regulator.throttle_start, 948);
    assert_eq!(regulator.throttle_stop, 1271);
    assert_eq!(regulator.hw, hardware());
}

#[test]
fn controller_arguments() {
    assert_eq!(Regulator::controller(&Config::default()), (0, 1, 0, 300, 300));
    let config = Config { gain: 7, ..Config::default() };
    assert_eq!(Regulator::controller(&config), (0, 7, 0, 43, 300));
    let config = Config { gain: 255, pwm_freq: 50, ..Config::default() };
    assert_eq!(Regulator::controller(&config), (0, 255, 0, 1, 50));
    let config = Config { gain: 3, pwm_freq: 300, ..Config::default() };
    assert_eq!(Regulator::controller(&config), (0, 3, 0, 100, 300));
}

#[test]
fn startup_and_shutdown_of_the_output_stage() {
    let mut regulator = regulator();
    regulator.startup();
    assert!(regulator.hw.enable);
    assert!(regulator.hw.pwm);
    regulator.shutdown();
    assert!(!regulator.hw.enable);
    assert!(!regulator.hw.pwm);
}

#[test]
fn reading_converts_the_current() {
    let regulator = regulator();
    assert_eq!(regulator.get_reading(1500, 948, 1000), Some((248, 948)));
    assert_eq!(regulator.get_reading(0, 948, 1000), None);
    assert_eq!(regulator.get_reading(1, 948, 4095), None);
    // 20 * 1230 / 3 = 8200 mV, and ten times that is beyond u16.
    assert_eq!(regulator.get_reading(3, 948, 20), None);
}

#[test]
fn no_fault_within_bounds() {
    let regulator = regulator();
    assert_eq!(regulator.check_fault(110, 50, 1271, 999), None);
    assert_eq!(regulator.check_fault(40, 50, 0, 998), None);
    assert_eq!(regulator.check_fault(50, 50, 0, 999), None);
}

#[test]
fn overcurrent_beyond_the_measurement_error() {
    let regulator = regulator();
    assert_eq!(regulator.check_fault(111, 50, 0, 0), Some(RuntimeError::Overcurrent));
    assert_eq!(regulator.check_fault(110, 50, 0, 0), None);
}

#[test]
fn overcurrent_does_not_overflow() {
    let mut regulator = regulator();
    regulator.max_current = 65530;
    assert_eq!(regulator.check_fault(65535, 0, 0, 0), None);
}

#[test]
fn invariant_load_at_the_highest_duty() {
    let regulator = regulator();
    assert_eq!(regulator.check_fault(40, 50, 0, 999), Some(RuntimeError::InvariantLoad));
}

#[test]
fn overtemperature_above_the_stop_of_throttling() {
    let regulator = regulator();
    assert_eq!(regulator.check_fault(40, 50, 1272, 0), Some(RuntimeError::Overtemperature));
    assert_eq!(regulator.check_fault(40, 50, 1271, 0), None);
}

#[test]
fn overcurrent_comes_before_invariant_load() {
    let regulator = regulator();
    // Current above every bound, yet below the target, with the duty at its highest.
    assert_eq!(regulator.check_fault(200, 300, 0, 999), Some(RuntimeError::Overcurrent));
    assert_eq!(regulator.check_fault(200, 300, 2000, 999), Some(RuntimeError::Overcurrent));
}

#[test]
fn invariant_load_comes_before_overtemperature() {
    let regulator = regulator();
    assert_eq!(regulator.check_fault(40, 50, 2000, 999), Some(RuntimeError::InvariantLoad));
}

#[test]
fn no_throttling_below_the_start() {
    let regulator = regulator();
    assert_eq!(regulator.thermal_throttle(947, 40), Ok((40, false)));
    assert_eq!(regulator.thermal_throttle(0, 65535), Ok((65535, false)));
}

#[test]
fn throttle_at_the_start_passes_the_target_on() {
    let regulator = regulator();
    assert_eq!(regulator.thermal_throttle(948, 40), Ok((40, true)));
    assert_eq!(regulator.thermal_throttle(948, 50), Ok((50, true)));
}

#[test]
fn throttle_at_the_start_holds_the_target_to_the_highest() {
    let regulator = regulator();
    assert_eq!(regulator.thermal_throttle(948, 51), Ok((50, true)));
}

#[test]
fn throttle_at_the_stop_is_zero() {
    let regulator = regulator();
    assert_eq!(regulator.thermal_throttle(1271, 40), Ok((0, true)));
    assert_eq!(regulator.thermal_throttle(1271, 0), Ok((0, true)));
}

#[test]
fn throttle_interpolates_between_start_and_stop() {
    let regulator = regulator();
    // (1271 - 1104) * 50 / (1271 - 948) = 8350 / 323 = 25
    assert_eq!(regulator.thermal_throttle(1104, 40), Ok((25, true)));
    assert_eq!(regulator.thermal_throttle(1104, 20), Ok((20, true)));
    // (1271 - 1270) * 50 / 323 = 0
    assert_eq!(regulator.thermal_throttle(1270, 40), Ok((0, true)));
    // (1271 - 949) * 50 / 323 = 16100 / 323 = 49
    assert_eq!(regulator.thermal_throttle(949, 50), Ok((49, true)));
}

#[test]
fn throttle_without_a_slope_is_an_arithmetic_error() {
    let config = Config { throttle_start: 50, throttle_stop: 52, ..Config::default() };
    let regulator = Regulator::new(hardware(), &config);
    assert_eq!(regulator.throttle_start, regulator.throttle_stop);
    assert_eq!(regulator.thermal_throttle(948, 40), Err(RuntimeError::ArithmeticError));
    assert_eq!(regulator.thermal_throttle(947, 40), Ok((40, false)));
}

#[test]
fn next_duty_follows_the_controller() {
    let regulator = regulator();
    let (mut upper, mut lower) = (60u16, 40u16);
    assert_eq!(regulator.next_duty(Some(5), 50, &mut upper, &mut lower, 100), Ok(105));
    assert_eq!((upper, lower), (60, 50));
    let (mut upper, mut lower) = (60u16, 40u16);
    assert_eq!(regulator.next_duty(Some(-5), 50, &mut upper, &mut lower, 100), Ok(95));
    assert_eq!((upper, lower), (50, 40));
    let (mut upper, mut lower) = (60u16, 40u16);
    assert_eq!(regulator.next_duty(Some(0), 50, &mut upper, &mut lower, 100), Ok(100));
    assert_eq!((upper, lower), (60, 40));
    let (mut upper, mut lower) = (60u16, 40u16);
    assert_eq!(regulator.next_duty(Some(0), 70, &mut upper, &mut lower, 100), Ok(100));
    assert_eq!((upper, lower), (70, 40));
    let (mut upper, mut lower) = (60u16, 40u16);
    assert_eq!(regulator.next_duty(Some(0), 30, &mut upper, &mut lower, 100), Ok(100));
    assert_eq!((upper, lower), (60, 30));
}

#[test]
fn next_duty_is_held_within_its_range() {
    let regulator = regulator();
    let (mut upper, mut lower) = (0u16, 0u16);
    assert_eq!(regulator.next_duty(Some(-5), 0, &mut upper, &mut lower, 3), Ok(0));
    assert_eq!(regulator.next_duty(Some(i16::MIN), 0, &mut upper, &mut lower, 0), Ok(0));
    assert_eq!(regulator.next_duty(Some(5), 0, &mut upper, &mut lower, 997), Ok(999));
    assert_eq!(regulator.next_duty(Some(i16::MAX), 0, &mut upper, &mut lower, 65535), Ok(999));
    let mut wide = regulator;
    wide.max_duty = 65535;
    assert_eq!(wide.next_duty(Some(10), 0, &mut upper, &mut lower, 65530), Ok(65535));
}

#[test]
fn next_duty_without_an_answer_is_an_arithmetic_error() {
    let regulator = regulator();
    let (mut upper, mut lower) = (60u16, 40u16);
    assert_eq!(
        regulator.next_duty(None, 50, &mut upper, &mut lower, 100),
        Err(RuntimeError::ArithmeticError)
    );
    assert_eq!((upper, lower), (60, 40));
}

#[test]
fn begin_waits_for_a_control() {
    let mut regulator = regulator();
    let mut proxy = RegulatorProxy::new();
    assert_eq!(regulator.begin(&mut proxy), None);
    assert!(!regulator.hw.enable);
    assert!(!regulator.hw.pwm);
    assert!(!proxy.status.signaled());
}

#[test]
fn begin_energizes_and_signals_running() {
    let mut regulator = regulator();
    let mut proxy = RegulatorProxy::new();
    proxy.set_control(Control { target: 30 });
    let state = regulator.begin(&mut proxy);
    assert_eq!(state, Some(running(30)));
    assert!(regulator.hw.enable);
    assert!(regulator.hw.pwm);
    assert!(!proxy.control.signaled());
    assert_eq!(
        proxy.wait_for_new_status(),
        Some(Status { mode: Mode::Running, error: HeadlightError::NoError })
    );
}

#[test]
fn sense_without_a_reading_is_an_arithmetic_error() {
    let regulator = regulator();
    let mut proxy = RegulatorProxy::new();
    let mut state = running(30);
    assert_eq!(regulator.sense(&mut state, &mut proxy, None), Err(RuntimeError::ArithmeticError));
    assert_eq!(state, running(30));
}

#[test]
fn sense_reports_faults() {
    let regulator = regulator();
    let mut proxy = RegulatorProxy::new();
    let mut state = running(30);
    assert_eq!(
        regulator.sense(&mut state, &mut proxy, Some((111, 0))),
        Err(RuntimeError::Overcurrent)
    );
    assert_eq!(
        regulator.sense(&mut state, &mut proxy, Some((30, 1272))),
        Err(RuntimeError::Overtemperature)
    );
    state.duty = 999;
    assert_eq!(
        regulator.sense(&mut state, &mut proxy, Some((29, 0))),
        Err(RuntimeError::InvariantLoad)
    );
    assert!(!proxy.status.signaled());
}

#[test]
fn sense_signals_throttling_on_its_edges_only() {
    let regulator = regulator();
    let mut proxy = RegulatorProxy::new();
    let mut state = running(40);
    assert_eq!(regulator.sense(&mut state, &mut proxy, Some((40, 900))), Ok(40));
    assert!(!proxy.status.signaled());
    assert_eq!(regulator.sense(&mut state, &mut proxy, Some((40, 1104))), Ok(25));
    assert_eq!(state.status.mode, Mode::Throttling);
    assert_eq!(
        proxy.wait_for_new_status(),
        Some(Status { mode: Mode::Throttling, error: HeadlightError::NoError })
    );
    assert_eq!(regulator.sense(&mut state, &mut proxy, Some((40, 1200))), Ok(10));
    assert!(!proxy.status.signaled());
    assert_eq!(regulator.sense(&mut state, &mut proxy, Some((40, 900))), Ok(40));
    assert_eq!(state.status.mode, Mode::Running);
    assert_eq!(
        proxy.wait_for_new_status(),
        Some(Status { mode: Mode::Running, error: HeadlightError::NoError })
    );
}

#[test]
fn actuate_sets_the_duty_and_publishes_the_snapshot() {
    let mut regulator = regulator();
    let mut proxy = RegulatorProxy::new();
    let mut state = running(40);
    assert_eq!(regulator.actuate(&mut state, &mut proxy, 35, 900, Some(12)), Ok(Next::Wait));
    assert_eq!(regulator.hw.duty, 12);
    assert_eq!(state.duty, 12);
    assert_eq!(state.lower_current, 35);
    assert_eq!(state.upper_current, 35);
    assert_eq!(
        proxy.get_monitor_immediately(),
        Some(Monitor { duty: 12, upper_current: 35, lower_current: 35, temperature: 900 })
    );
    assert_eq!(regulator.actuate(&mut state, &mut proxy, 38, 901, Some(3)), Ok(Next::Wait));
    assert_eq!(regulator.actuate(&mut state, &mut proxy, 42, 902, Some(-2)), Ok(Next::Wait));
    assert_eq!(
        proxy.get_monitor_immediately(),
        Some(Monitor { duty: 13, upper_current: 42, lower_current: 38, temperature: 902 })
    );
}

#[test]
fn actuate_adopts_a_control_that_waits() {
    let mut regulator = regulator();
    let mut proxy = RegulatorProxy::new();
    let mut state = running(40);
    proxy.set_control(Control { target: 45 });
    assert_eq!(regulator.actuate(&mut state, &mut proxy, 35, 900, Some(1)), Ok(Next::Wait));
    assert_eq!(state.control, Control { target: 45 });
    assert!(!proxy.control.signaled());
}

#[test]
fn actuate_stops_on_a_shutdown_request() {
    let mut regulator = regulator();
    let mut proxy = RegulatorProxy::new();
    let mut state = running(40);
    proxy.shutdown();
    assert_eq!(regulator.actuate(&mut state, &mut proxy, 35, 900, Some(1)), Ok(Next::Stop));
    assert!(proxy.monitor.signaled());
}

#[test]
fn actuate_without_an_answer_changes_nothing() {
    let mut regulator = regulator();
    let mut proxy = RegulatorProxy::new();
    let mut state = running(40);
    proxy.set_control(Control { target: 45 });
    assert_eq!(
        regulator.actuate(&mut state, &mut proxy, 35, 900, None),
        Err(RuntimeError::ArithmeticError)
    );
    assert_eq!(state, running(40));
    assert!(proxy.control.signaled());
    assert!(!proxy.monitor.signaled());
}

#[test]
fn finish_after_a_shutdown_request() {
    let mut regulator = regulator();
    let mut proxy = RegulatorProxy::new();
    proxy.set_control(Control { target: 30 });
    let mut state = regulator.begin(&mut proxy).unwrap();
    proxy.wait_for_new_status();
    proxy.shutdown();
    regulator.finish(&mut state, &mut proxy, None);
    assert!(!regulator.hw.enable);
    assert!(!regulator.hw.pwm);
    assert!(!regulator.hw.fault);
    assert!(proxy.shutdown_confirm.signaled());
    assert_eq!(state.status, Status { mode: Mode::Idle, error: HeadlightError::NoError });
    assert_eq!(proxy.wait_for_new_status(), Some(state.status));
    assert!(proxy.shutdown_confirmed());
}

#[test]
fn finish_after_a_fault() {
    let mut regulator = regulator();
    let mut proxy = RegulatorProxy::new();
    proxy.set_control(Control { target: 30 });
    let mut state = regulator.begin(&mut proxy).unwrap();
    regulator.finish(&mut state, &mut proxy, Some(RuntimeError::Overcurrent));
    assert!(!regulator.hw.enable);
    assert!(!regulator.hw.pwm);
    assert!(regulator.hw.fault);
    assert!(proxy.shutdown_confirm.signaled());
    let fault = Status {
        mode: Mode::Fault,
        error: HeadlightError::Runtime { e: RuntimeError::Overcurrent },
    };
    assert_eq!(state.status, fault);
    assert_eq!(proxy.wait_for_new_status(), Some(fault));
}

#[test]
fn a_whole_run_of_the_loop() {
    let mut regulator = regulator();
    let mut proxy = RegulatorProxy::new();
    proxy.set_control(Control { target: 40 });
    let mut state = regulator.begin(&mut proxy).unwrap();
    let reading = regulator.get_reading(1500, 900, 100);
    assert_eq!(reading, Some((24, 900)));
    let target = regulator.sense(&mut state, &mut proxy, reading).unwrap();
    assert_eq!(target, 40);
    assert_eq!(regulator.actuate(&mut state, &mut proxy, 24, 900, Some(16)), Ok(Next::Wait));
    assert_eq!(regulator.hw.duty, 16);
    // The load is gone: the current stays low until the duty is at its highest.
    assert_eq!(regulator.actuate(&mut state, &mut proxy, 0, 900, Some(i16::MAX)), Ok(Next::Wait));
    assert_eq!(regulator.hw.duty, 999);
    let fault = regulator.sense(&mut state, &mut proxy, Some((0, 900)));
    assert_eq!(fault, Err(RuntimeError::InvariantLoad));
    regulator.finish(&mut state, &mut proxy, fault.err());
    assert!(!regulator.hw.enable && !regulator.hw.pwm && regulator.hw.fault);
    assert_eq!(state.status.mode, Mode::Fault);
}
