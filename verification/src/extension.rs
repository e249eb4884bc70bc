//! What the device does with each command that it takes.

use crate::bundles::{FromHeadlightBundle, ToHeadlightBundle};
use crate::commands::{Config, Control, Request, Reset, Status};
use crate::config::{violation, ValidatedConfig};
use crate::model::{Model, ModelView};
use crate::regulation::{Mailbox, RegulatorProxy};
use crate::types::{HeadlightError, Mode, RuntimeError};
use vstd::prelude::*;

verus! {

/// Why a command could not be carried out.
#[derive(Debug, Clone, Copy, PartialEq, Eq, Structural)]
pub enum Error {
    /// What was asked for is not at hand.
    RequestUnavailable,
}

/// What is left to do for a command once the model has taken it: the part that
/// suspends or touches the hardware.
pub enum Directive {
    /// Nothing.
    Done,
    /// Queue this bundle for sending.
    Send(FromHeadlightBundle),
    /// Store this configuration and report how it went with [`config_stored`].
    /// Where `after_shutdown` is set, regulation was asked to shut down: wait for
    /// its confirmation first.
    Store { config: ValidatedConfig, after_shutdown: bool },
    /// Restart the device.
    Reset(Reset),
}

/// A command that the device carries out on its model.
pub trait Execute: Sized {
    /// What carrying out the command gives, and what it makes of the model and
    /// of the proxy.
    spec fn executed(self, model: ModelView, proxy: RegulatorProxy) -> (
        Result<Directive, Error>,
        ModelView,
        RegulatorProxy,
    );

    fn run(self, model: &mut Model, regulator_proxy: &mut RegulatorProxy) -> (r: Result<
        Directive,
        Error,
    >)
        ensures
            (r, final(model)@, *final(regulator_proxy)) == self.executed(
                old(model)@,
                *old(regulator_proxy),
            ),
    ;
}

impl Execute for Request {
    /// A request is answered from the model: with its status, its control or its
    /// configuration, or with the regulator's latest snapshot. Without a
    /// snapshot that was not read yet the request fails; it does not wait.
    open spec fn executed(self, model: ModelView, proxy: RegulatorProxy) -> (
        Result<Directive, Error>,
        ModelView,
        RegulatorProxy,
    ) {
        match self {
            Request::Status => (
                Ok(Directive::Send(FromHeadlightBundle::Status(model.status))),
                model,
                proxy,
            ),
            Request::Control => (
                Ok(Directive::Send(FromHeadlightBundle::Control(model.control))),
                model,
                proxy,
            ),
            Request::Monitor => (
                match proxy.monitor.slot {
                    Some(monitor) => Ok(Directive::Send(FromHeadlightBundle::Monitor(monitor))),
                    None => Err(Error::RequestUnavailable),
                },
                model,
                RegulatorProxy { monitor: Mailbox { slot: None }, ..proxy },
            ),
            Request::Config => (
                Ok(Directive::Send(FromHeadlightBundle::Config(model.config))),
                model,
                proxy,
            ),
        }
    }

    fn run(self, model: &mut Model, regulator_proxy: &mut RegulatorProxy) -> (r: Result<
        Directive,
        Error,
    >) {
        let bundle = match self {
            Request::Status => FromHeadlightBundle::Status(model.status()),
            Request::Control => FromHeadlightBundle::Control(model.get_control()),
            Request::Monitor => match model.get_monitor_immediately(regulator_proxy) {
                Some(monitor) => FromHeadlightBundle::Monitor(monitor),
                None => {
                    return Err(Error::RequestUnavailable);
                },
            },
            Request::Config => FromHeadlightBundle::Config(model.config()),
        };
        Ok(Directive::Send(bundle))
    }
}

impl Execute for Control {
    /// A control becomes the model's control and is handed to the regulator.
    open spec fn executed(self, model: ModelView, proxy: RegulatorProxy) -> (
        Result<Directive, Error>,
        ModelView,
        RegulatorProxy,
    ) {
        (
            Ok(Directive::Done),
            ModelView { control: self, ..model },
            RegulatorProxy { control: Mailbox { slot: Some(self) }, ..proxy },
        )
    }

    fn run(self, model: &mut Model, regulator_proxy: &mut RegulatorProxy) -> (r: Result<
        Directive,
        Error,
    >) {
        let _ = model.set_control(self, false, regulator_proxy);
        Ok(Directive::Done)
    }
}

impl Execute for Config {
    /// A configuration that breaks a bound is rejected: the model's error names
    /// the bound, the status is sent, and nothing else changes. One that breaks
    /// none is to be stored, after regulation has shut down where it runs. The
    /// configuration in force stays as it is either way: a stored configuration
    /// comes into force at the next boot.
    open spec fn executed(self, model: ModelView, proxy: RegulatorProxy) -> (
        Result<Directive, Error>,
        ModelView,
        RegulatorProxy,
    ) {
        match violation(self) {
            Some(e) => {
                let status = Status { mode: model.status.mode, error: HeadlightError::Config { e } };
                (
                    Ok(Directive::Send(FromHeadlightBundle::Status(status))),
                    ModelView { status, ..model },
                    proxy,
                )
            },
            None => (
                Ok(
                    Directive::Store {
                        config: ValidatedConfig::of(self),
                        after_shutdown: model.config.enabled,
                    },
                ),
                model,
                if model.config.enabled {
                    RegulatorProxy { shutdown_start: Mailbox { slot: Some(()) }, ..proxy }
                } else {
                    proxy
                },
            ),
        }
    }

    fn run(self, model: &mut Model, regulator_proxy: &mut RegulatorProxy) -> (r: Result<
        Directive,
        Error,
    >) {
        match ValidatedConfig::try_from(self) {
            Ok(config) => {
                let after_shutdown = model.config().enabled;
                if after_shutdown {
                    model.shutdown_regulation(regulator_proxy);
                }
                Ok(Directive::Store { config, after_shutdown })
            },
            Err(e) => {
                match model.set_error(HeadlightError::Config { e }, true) {
                    Some(bundle) => Ok(Directive::Send(bundle)),
                    None => Ok(Directive::Done),
                }
            },
        }
    }
}

impl Execute for Reset {
    /// A reset is left to whoever can restart the device.
    open spec fn executed(self, model: ModelView, proxy: RegulatorProxy) -> (
        Result<Directive, Error>,
        ModelView,
        RegulatorProxy,
    ) {
        (Ok(Directive::Reset(self)), model, proxy)
    }

    fn run(self, model: &mut Model, regulator_proxy: &mut RegulatorProxy) -> (r: Result<
        Directive,
        Error,
    >) {
        Ok(Directive::Reset(self))
    }
}

/// What carrying out `bundle` gives.
pub open spec fn dispatched(bundle: ToHeadlightBundle, model: ModelView, proxy: RegulatorProxy) -> (
    Result<Directive, Error>,
    ModelView,
    RegulatorProxy,
) {
    match bundle {
        ToHeadlightBundle::Request(command) => command.executed(model, proxy),
        ToHeadlightBundle::Control(command) => command.executed(model, proxy),
        ToHeadlightBundle::Config(command) => command.executed(model, proxy),
        ToHeadlightBundle::Reset(command) => command.executed(model, proxy),
    }
}

/// Carries out the command that `bundle` holds.
pub fn dispatch(bundle: ToHeadlightBundle, model: &mut Model, regulator_proxy: &mut RegulatorProxy) -> (r:
    Result<Directive, Error>)
    ensures
        (r, final(model)@, *final(regulator_proxy)) == dispatched(
            bundle,
            old(model)@,
            *old(regulator_proxy),
        ),
{
    match bundle {
        ToHeadlightBundle::Request(command) => command.run(model, regulator_proxy),
        ToHeadlightBundle::Control(command) => command.run(model, regulator_proxy),
        ToHeadlightBundle::Config(command) => command.run(model, regulator_proxy),
        ToHeadlightBundle::Reset(command) => command.run(model, regulator_proxy),
    }
}

/// What follows once a configuration was stored, or was not.
pub open spec fn after_store(model: ModelView, stored: bool) -> (Directive, ModelView) {
    if stored {
        (Directive::Reset(Reset::Now), model)
    } else {
        let status = Status {
            mode: Mode::Fault,
            error: HeadlightError::Runtime { e: RuntimeError::Flash },
        };
        (Directive::Send(FromHeadlightBundle::Status(status)), ModelView { status, ..model })
    }
}

/// Closes the handling of a configuration command. A stored configuration takes
/// a reset to come into force. A failure of the storage medium puts the device
/// into fault, and the status is sent.
pub fn config_stored(model: &mut Model, stored: bool) -> (directive: Directive)
    ensures
        (directive, final(model)@) == after_store(old(model)@, stored),
{
    if stored {
        Directive::Reset(Reset::Now)
    } else {
        match model.set_fault(RuntimeError::Flash, true) {
            Some(bundle) => Directive::Send(bundle),
            None => Directive::Done,
        }
    }
}

/// A configuration that breaks a bound is rejected with the first bound that it
/// breaks as the error, and leaves the configuration in force untouched.
pub proof fn rejection_keeps_config(config: Config, model: ModelView, proxy: RegulatorProxy)
    requires
        violation(config) is Some,
    ensures
        config.executed(model, proxy).1.config == model.config,
        config.executed(model, proxy).1.control == model.control,
        config.executed(model, proxy).1.status.error == (HeadlightError::Config {
            e: violation(config)->Some_0,
        }),
        config.executed(model, proxy).2 == proxy,
        !(config.executed(model, proxy).0 matches Ok(Directive::Store { .. })),
        !(config.executed(model, proxy).0 matches Ok(Directive::Reset(_))),
{
}

} // verus!
