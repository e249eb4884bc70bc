use headlight::bridge::{
    diagnostic, ingest, notification, queued, relay, set_version, Characteristic, Ingest,
};
use headlight::bundles::{FromHeadlightBundle, ToHeadlightBundle};
use headlight::commands::{AppError, Config, Control, Monitor, Request, Reset, Status};
use headlight::config::ValidatedConfig;
use headlight::extension::{config_stored, dispatch, Directive, Error, Execute};
use headlight::model::{initial_status, Model};
use headlight::regulation::RegulatorProxy;
use headlight::types::{ConfigError, HeadlightError, Mode, RuntimeError};

fn enabled() -> ValidatedConfig {
    ValidatedConfig::try_from(Config {
        enabled: true,
        startup_control: Control { target: 20 },
        ..Config::default()
    })
    .ok()
    .unwrap()
}

fn model(proxy: &mut RegulatorProxy) -> Model {
    Model::new(enabled(), Status::default(), proxy)
}

fn status(mode: Mode, error: HeadlightError) -> Status {
    Status { mode, error }
}

#[test]
fn new_model_hands_the_startup_control_to_the_regulator() {
    let mut proxy = RegulatorProxy::new();
    let model = model(&mut proxy);
    assert_eq!(proxy.control.slot, Some(Control { target: 20 }));
    assert_eq!(model.get_control(), Control { target: 20 });
    assert_eq!(model.get_mode(), Mode::Idle);
    assert_eq!(model.get_error(), HeadlightError::NoError);
    assert_eq!(model.status(), Status::default());
    assert_eq!(model.config(), enabled().inner());
    assert_eq!(model.announce(), FromHeadlightBundle::Status(Status::default()));
}

#[test]
fn status_at_boot() {
    assert_eq!(initial_status(None), Status::default());
    let bound = HeadlightError::Config { e: ConfigError::Gain };
    assert_eq!(initial_status(Some(bound)), status(Mode::Idle, bound));
    let flash = HeadlightError::Runtime { e: RuntimeError::Flash };
    assert_eq!(initial_status(Some(flash)), status(Mode::Fault, flash));
    assert_eq!(initial_status(Some(HeadlightError::NoError)), Status::default());
}

#[test]
fn set_mode_and_error_report_on_demand() {
    let mut proxy = RegulatorProxy::new();
    let mut model = model(&mut proxy);
    assert_eq!(model.set_mode(Mode::Running, false), None);
    assert_eq!(model.get_mode(), Mode::Running);
    let flash = HeadlightError::Runtime { e: RuntimeError::Flash };
    assert_eq!(
        model.set_error(flash, true),
        Some(FromHeadlightBundle::Status(status(Mode::Running, flash)))
    );
    assert_eq!(model.get_error(), flash);
    assert_eq!(
        model.set_mode(Mode::Fault, true),
        Some(FromHeadlightBundle::Status(status(Mode::Fault, flash)))
    );
    assert_eq!(model.set_error(flash, false), None);
}

#[test]
fn set_control_forwards_to_the_regulator() {
    let mut proxy = RegulatorProxy::new();
    let mut model = model(&mut proxy);
    assert_eq!(model.set_control(Control { target: 33 }, false, &mut proxy), None);
    assert_eq!(model.get_control(), Control { target: 33 });
    assert_eq!(proxy.control.slot, Some(Control { target: 33 }));
    assert_eq!(
        model.set_control(Control { target: 34 }, true, &mut proxy),
        Some(FromHeadlightBundle::Control(Control { target: 34 }))
    );
    assert_eq!(proxy.control.slot, Some(Control { target: 34 }));
}

#[test]
fn observe_regulator_relays_each_change_once() {
    let mut proxy = RegulatorProxy::new();
    let mut model = model(&mut proxy);
    assert_eq!(model.observe_regulator(&mut proxy), None);
    let fault = status(Mode::Fault, HeadlightError::Runtime { e: RuntimeError::Overcurrent });
    proxy.status.signal(status(Mode::Running, HeadlightError::NoError));
    proxy.status.signal(fault);
    assert_eq!(model.observe_regulator(&mut proxy), Some(FromHeadlightBundle::Status(fault)));
    assert_eq!(model.status(), fault);
    assert_eq!(model.observe_regulator(&mut proxy), None);
    assert_eq!(model.status(), fault);
}

#[test]
fn observe_regulator_keeps_the_status_consistent() {
    let mut proxy = RegulatorProxy::new();
    let mut model = model(&mut proxy);
    proxy.status.signal(status(Mode::Fault, HeadlightError::NoError));
    assert_eq!(model.observe_regulator(&mut proxy), None);
    assert_eq!(model.status(), Status::default());
    assert!(!proxy.status.signaled());
}

#[test]
fn shutdown_regulation_asks_the_regulator() {
    let mut proxy = RegulatorProxy::new();
    let model = model(&mut proxy);
    model.shutdown_regulation(&mut proxy);
    assert!(proxy.shutdown_start.signaled());
    assert!(!proxy.shutdown_confirm.signaled());
}

#[test]
fn requests_are_answered_from_the_model() {
    let mut proxy = RegulatorProxy::new();
    let mut model = model(&mut proxy);
    assert!(matches!(
        Request::Status.run(&mut model, &mut proxy),
        Ok(Directive::Send(FromHeadlightBundle::Status(s))) if s == Status::default()
    ));
    assert!(matches!(
        Request::Control.run(&mut model, &mut proxy),
        Ok(Directive::Send(FromHeadlightBundle::Control(Control { target: 20 })))
    ));
    assert!(matches!(
        Request::Config.run(&mut model, &mut proxy),
        Ok(Directive::Send(FromHeadlightBundle::Config(c))) if c == enabled().inner()
    ));
}

#[test]
fn monitor_request_fails_without_a_fresh_snapshot() {
    let mut proxy = RegulatorProxy::new();
    let mut model = model(&mut proxy);
    assert!(matches!(
        Request::Monitor.run(&mut model, &mut proxy),
        Err(Error::RequestUnavailable)
    ));
    let monitor = Monitor { duty: 1, upper_current: 2, lower_current: 3, temperature: 4 };
    proxy.monitor.signal(monitor);
    assert!(matches!(
        Request::Monitor.run(&mut model, &mut proxy),
        Ok(Directive::Send(FromHeadlightBundle::Monitor(m))) if m == monitor
    ));
    assert!(matches!(
        Request::Monitor.run(&mut model, &mut proxy),
        Err(Error::RequestUnavailable)
    ));
}

#[test]
fn control_command_is_applied_and_forwarded() {
    let mut proxy = RegulatorProxy::new();
    let mut model = model(&mut proxy);
    assert!(matches!(Control { target: 44 }.run(&mut model, &mut proxy), Ok(Directive::Done)));
    assert_eq!(model.get_control(), Control { target: 44 });
    assert_eq!(proxy.control.slot, Some(Control { target: 44 }));
}

#[test]
fn config_command_with_a_low_pwm_frequency_is_rejected() {
    let mut proxy = RegulatorProxy::new();
    let mut model = model(&mut proxy);
    let before = model.config();
    let config = Config { pwm_freq: 40, ..Config::default() };
    let rejected = status(Mode::Idle, HeadlightError::Config { e: ConfigError::PWMFreq });
    assert!(matches!(
        config.run(&mut model, &mut proxy),
        Ok(Directive::Send(FromHeadlightBundle::Status(s))) if s == rejected
    ));
    assert_eq!(model.config(), before);
    assert_eq!(model.get_error(), HeadlightError::Config { e: ConfigError::PWMFreq });
    assert!(!proxy.shutdown_start.signaled());
}

#[test]
fn config_command_with_a_high_max_target_is_rejected() {
    let mut proxy = RegulatorProxy::new();
    let mut model = model(&mut proxy);
    let before = model.config();
    let config = Config {
        pwm_freq: 300,
        max_target_current: 100,
        abs_max_load_current: 90,
        ..Config::default()
    };
    let rejected = status(Mode::Idle, HeadlightError::Config { e: ConfigError::MaxTarget });
    assert!(matches!(
        config.run(&mut model, &mut proxy),
        Ok(Directive::Send(FromHeadlightBundle::Status(s))) if s == rejected
    ));
    assert_eq!(model.config(), before);
    assert!(!proxy.shutdown_start.signaled());
}

#[test]
fn valid_config_command_is_stored_after_shutdown() {
    let mut proxy = RegulatorProxy::new();
    let mut model = model(&mut proxy);
    let before = model.config();
    let config = Config { pwm_freq: 200, ..Config::default() };
    match config.run(&mut model, &mut proxy) {
        Ok(Directive::Store { config: valid, after_shutdown }) => {
            assert!(after_shutdown);
            assert_eq!(valid.inner(), config);
        }
        _ => panic!("a valid configuration is to be stored"),
    }
    assert!(proxy.shutdown_start.signaled());
    assert_eq!(model.config(), before);
    assert_eq!(model.get_error(), HeadlightError::NoError);
}

#[test]
fn valid_config_command_without_regulation_needs_no_shutdown() {
    let mut proxy = RegulatorProxy::new();
    let mut model = Model::new(ValidatedConfig::factory(), Status::default(), &mut proxy);
    let config = Config { pwm_freq: 200, ..Config::default() };
    assert!(matches!(
        config.run(&mut model, &mut proxy),
        Ok(Directive::Store { after_shutdown: false, .. })
    ));
    assert!(!proxy.shutdown_start.signaled());
}

#[test]
fn stored_config_takes_a_reset() {
    let mut proxy = RegulatorProxy::new();
    let mut model = model(&mut proxy);
    assert!(matches!(config_stored(&mut model, true), Directive::Reset(Reset::Now)));
    assert_eq!(model.get_error(), HeadlightError::NoError);
}

#[test]
fn failed_store_is_a_fault() {
    let mut proxy = RegulatorProxy::new();
    let mut model = model(&mut proxy);
    let flash = HeadlightError::Runtime { e: RuntimeError::Flash };
    assert!(matches!(
        config_stored(&mut model, false),
        Directive::Send(FromHeadlightBundle::Status(s)) if s == status(Mode::Fault, flash)
    ));
    assert_eq!(model.get_error(), flash);
    assert_eq!(model.get_mode(), Mode::Fault);
}

#[test]
fn set_fault_sets_mode_and_error_at_once() {
    let mut proxy = RegulatorProxy::new();
    let mut model = model(&mut proxy);
    let overcurrent = HeadlightError::Runtime { e: RuntimeError::Overcurrent };
    assert_eq!(model.set_fault(RuntimeError::Overcurrent, false), None);
    assert_eq!(model.status(), status(Mode::Fault, overcurrent));
    assert_eq!(
        model.set_fault(RuntimeError::Flash, true),
        Some(FromHeadlightBundle::Status(status(
            Mode::Fault,
            HeadlightError::Runtime { e: RuntimeError::Flash }
        )))
    );
}

#[test]
fn reset_command_is_handed_on() {
    let mut proxy = RegulatorProxy::new();
    let mut model = model(&mut proxy);
    assert!(matches!(Reset::Now.run(&mut model, &mut proxy), Ok(Directive::Reset(Reset::Now))));
    assert!(matches!(
        Reset::Factory.run(&mut model, &mut proxy),
        Ok(Directive::Reset(Reset::Factory))
    ));
}

#[test]
fn dispatch_runs_the_command_of_the_bundle() {
    let mut proxy = RegulatorProxy::new();
    let mut model = model(&mut proxy);
    assert!(matches!(
        dispatch(ToHeadlightBundle::Control(Control { target: 7 }), &mut model, &mut proxy),
        Ok(Directive::Done)
    ));
    assert_eq!(model.get_control(), Control { target: 7 });
    assert!(matches!(
        dispatch(ToHeadlightBundle::Request(Request::Monitor), &mut model, &mut proxy),
        Err(Error::RequestUnavailable)
    ));
    assert!(matches!(
        dispatch(ToHeadlightBundle::Reset(Reset::Now), &mut model, &mut proxy),
        Ok(Directive::Reset(Reset::Now))
    ));
    assert!(matches!(
        dispatch(
            ToHeadlightBundle::Config(Config { gain: 0, ..Config::default() }),
            &mut model,
            &mut proxy
        ),
        Ok(Directive::Send(FromHeadlightBundle::Status(_)))
    ));
    assert_eq!(model.get_error(), HeadlightError::Config { e: ConfigError::Gain });
}

#[test]
fn writes_of_the_client_become_commands() {
    assert_eq!(
        ingest(Characteristic::Request, &[0xab]),
        Ingest::Queue(ToHeadlightBundle::Request(Request::Monitor))
    );
    assert_eq!(
        ingest(Characteristic::Control, &[0x34, 0x12]),
        Ingest::Queue(ToHeadlightBundle::Control(Control { target: 0x1234 }))
    );
    assert_eq!(
        ingest(Characteristic::Config, &Config::default().serialize()),
        Ingest::Queue(ToHeadlightBundle::Config(Config::default()))
    );
    assert_eq!(
        ingest(Characteristic::Reset, &[0x11]),
        Ingest::Queue(ToHeadlightBundle::Reset(Reset::Factory))
    );
}

#[test]
fn writes_that_are_no_command_are_invalid_packets() {
    assert_eq!(ingest(Characteristic::Request, &[0x00]), Ingest::Reject(AppError::InvalidPacket));
    assert_eq!(ingest(Characteristic::Control, &[0x00]), Ingest::Reject(AppError::InvalidPacket));
    assert_eq!(ingest(Characteristic::Config, &[2; 12]), Ingest::Reject(AppError::InvalidPacket));
    assert_eq!(ingest(Characteristic::Reset, &[]), Ingest::Reject(AppError::InvalidPacket));
}

#[test]
fn writes_to_other_characteristics_are_ignored() {
    assert_eq!(ingest(Characteristic::Status, &[0xf0, 0, 0]), Ingest::Ignored);
    assert_eq!(ingest(Characteristic::Monitor, &[0; 8]), Ingest::Ignored);
    assert_eq!(ingest(Characteristic::Properties, &[0; 12]), Ingest::Ignored);
    assert_eq!(ingest(Characteristic::AppError, &[0]), Ingest::Ignored);
}

#[test]
fn full_queue_is_too_fast() {
    assert_eq!(queued(true), None);
    assert_eq!(queued(false), Some(AppError::TooFast));
}

#[test]
fn commands_of_the_device_become_notifications() {
    let n = notification(&FromHeadlightBundle::Status(Status::default()));
    assert_eq!(n.characteristic, Characteristic::Status);
    assert_eq!(n.value, vec![0xf0, 0x00, 0x00]);
    let n = notification(&FromHeadlightBundle::Control(Control { target: 0x1234 }));
    assert_eq!(n.characteristic, Characteristic::Control);
    assert_eq!(n.value, vec![0x34, 0x12]);
    let n = notification(&FromHeadlightBundle::Monitor(Monitor {
        duty: 1,
        upper_current: 2,
        lower_current: 3,
        temperature: 4,
    }));
    assert_eq!(n.characteristic, Characteristic::Monitor);
    assert_eq!(n.value, vec![1, 0, 2, 0, 3, 0, 4, 0]);
    let n = notification(&FromHeadlightBundle::Config(Config::default()));
    assert_eq!(n.characteristic, Characteristic::Config);
    assert_eq!(n.value, Config::default().serialize());
}

#[test]
fn commands_are_relayed_to_a_connected_client_only() {
    let bundle = FromHeadlightBundle::Control(Control { target: 0x1234 });
    assert!(relay(&bundle, false).is_none());
    let n = relay(&bundle, true).unwrap();
    assert_eq!(n.characteristic, Characteristic::Control);
    assert_eq!(n.value, vec![0x34, 0x12]);
}

#[test]
fn diagnostics_become_notifications() {
    let n = diagnostic(AppError::TooFast);
    assert_eq!(n.characteristic, Characteristic::AppError);
    assert_eq!(n.value, vec![0x12]);
    let n = diagnostic(AppError::InvalidPacket);
    assert_eq!(n.value, vec![0x10]);
}

#[test]
fn properties_value_of_the_bridge() {
    assert_eq!(set_version(), vec![2, 0, 0xe8, 0x03, 0xcf, 0x09, 50, 0, 0xf4, 0x01, 10, 0]);
}
