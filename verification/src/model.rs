//! The supervisor's record of the device: the configuration in force, the
//! status last known and the control last set.

use crate::bundles::FromHeadlightBundle;
use crate::commands::{Config, Control, Monitor, Status};
use crate::config::{violation, ValidatedConfig};
use crate::regulation::{Mailbox, RegulatorProxy};
use crate::types::{HeadlightError, Mode, RuntimeError};
use vstd::prelude::*;

verus! {

/// What a model holds.
pub struct ModelView {
    /// The configuration loaded at boot.
    pub config: Config,
    /// The status of the device.
    pub status: Status,
    /// The control that the regulator was last given.
    pub control: Control,
}

/// The supervisor's record of the device. Its configuration breaks no bound, and
/// its status is consistent: a fault has an error.
pub struct Model {
    config: Config,
    status: Status,
    control: Control,
}

/// The status that a device boots with, given the error that loading its
/// configuration left: idle without one, idle with the error of a stored
/// configuration that breaks a bound, and in fault with a failure of the storage
/// medium.
pub open spec fn boot_status(error: Option<HeadlightError>) -> Status {
    match error {
        Some(HeadlightError::Runtime { e }) => Status {
            mode: Mode::Fault,
            error: HeadlightError::Runtime { e },
        },
        Some(error) => Status { mode: Mode::Idle, error },
        None => Status { mode: Mode::Idle, error: HeadlightError::NoError },
    }
}

/// The status that a device boots with.
pub fn initial_status(error: Option<HeadlightError>) -> (status: Status)
    ensures
        status == boot_status(error),
        status.consistent(),
{
    match error {
        Some(HeadlightError::Runtime { e }) => Status {
            mode: Mode::Fault,
            error: HeadlightError::Runtime { e },
        },
        Some(error) => Status { mode: Mode::Idle, error },
        None => Status { mode: Mode::Idle, error: HeadlightError::NoError },
    }
}

/// The bundle that reports `status`, where a report is asked for.
pub open spec fn report(notify: bool, status: Status) -> Option<FromHeadlightBundle> {
    if notify {
        Some(FromHeadlightBundle::Status(status))
    } else {
        None
    }
}

impl Model {
    #[verifier::type_invariant]
    spec fn holds(self) -> bool {
        self.status.consistent() && violation(self.config) is None
    }

    pub closed spec fn view(&self) -> ModelView {
        ModelView { config: self.config, status: self.status, control: self.control }
    }

    /// The model of a device that boots with `config`, and hands its startup
    /// control to the regulator.
    pub fn new(config: ValidatedConfig, initial_status: Status, regulator_proxy: &mut RegulatorProxy) -> (model:
        Self)
        requires
            initial_status.consistent(),
        ensures
            model@ == (ModelView {
                config: config@,
                status: initial_status,
                control: config@.startup_control,
            }),
            *final(regulator_proxy) == (RegulatorProxy {
                control: Mailbox { slot: Some(config@.startup_control) },
                ..*old(regulator_proxy)
            }),
    {
        let config = config.inner();
        regulator_proxy.set_control(config.startup_control);
        Model { config, status: initial_status, control: config.startup_control }
    }

    /// The configuration loaded at boot.
    pub fn config(&self) -> (config: Config)
        ensures
            config == self@.config,
            violation(config) is None,
    {
        proof {
            use_type_invariant(self);
        }
        self.config
    }

    /// Mode and error, as they are.
    pub fn status(&self) -> (status: Status)
        ensures
            status == self@.status,
            status.consistent(),
    {
        proof {
            use_type_invariant(self);
        }
        self.status
    }

    pub fn get_mode(&self) -> (mode: Mode)
        ensures
            mode == self@.status.mode,
    {
        self.status.mode
    }

    /// Sets the mode. A fault needs its error first. Returns the status to send
    /// where `notify` asks for it.
    pub fn set_mode(&mut self, mode: Mode, notify: bool) -> (bundle: Option<FromHeadlightBundle>)
        requires
            mode == Mode::Fault ==> old(self)@.status.error != HeadlightError::NoError,
        ensures
            final(self)@ == (ModelView {
                status: Status { mode, error: old(self)@.status.error },
                ..old(self)@
            }),
            bundle == report(notify, final(self)@.status),
    {
        proof {
            use_type_invariant(&*self);
        }
        self.status = Status { mode, error: self.status.error };
        if notify {
            Some(FromHeadlightBundle::Status(self.status))
        } else {
            None
        }
    }

    pub fn get_error(&self) -> (error: HeadlightError)
        ensures
            error == self@.status.error,
    {
        self.status.error
    }

    /// Sets the error. A device in fault keeps an error. Returns the status to
    /// send where `notify` asks for it.
    pub fn set_error(&mut self, error: HeadlightError, notify: bool) -> (bundle: Option<
        FromHeadlightBundle,
    >)
        requires
            old(self)@.status.mode == Mode::Fault ==> error != HeadlightError::NoError,
        ensures
            final(self)@ == (ModelView {
                status: Status { mode: old(self)@.status.mode, error },
                ..old(self)@
            }),
            bundle == report(notify, final(self)@.status),
    {
        proof {
            use_type_invariant(&*self);
        }
        self.status = Status { mode: self.status.mode, error };
        if notify {
            Some(FromHeadlightBundle::Status(self.status))
        } else {
            None
        }
    }

    /// Puts the device into fault with `error` as its cause. Returns the status
    /// to send where `notify` asks for it.
    pub fn set_fault(&mut self, error: RuntimeError, notify: bool) -> (bundle: Option<
        FromHeadlightBundle,
    >)
        ensures
            final(self)@ == (ModelView {
                status: Status { mode: Mode::Fault, error: HeadlightError::Runtime { e: error } },
                ..old(self)@
            }),
            bundle == report(notify, final(self)@.status),
    {
        proof {
            use_type_invariant(&*self);
        }
        self.status = Status { mode: Mode::Fault, error: HeadlightError::Runtime { e: error } };
        if notify {
            Some(FromHeadlightBundle::Status(self.status))
        } else {
            None
        }
    }

    pub fn get_control(&self) -> (control: Control)
        ensures
            control == self@.control,
    {
        self.control
    }

    /// Sets the control and hands it to the regulator. Returns the control to
    /// send where `notify` asks for it.
    pub fn set_control(&mut self, control: Control, notify: bool, regulator_proxy: &mut RegulatorProxy) -> (bundle:
        Option<FromHeadlightBundle>)
        ensures
            final(self)@ == (ModelView { control, ..old(self)@ }),
            *final(regulator_proxy) == (RegulatorProxy {
                control: Mailbox { slot: Some(control) },
                ..*old(regulator_proxy)
            }),
            bundle == if notify {
                Some(FromHeadlightBundle::Control(control))
            } else {
                None
            },
    {
        proof {
            use_type_invariant(&*self);
        }
        self.control = control;
        regulator_proxy.set_control(control);
        if notify {
            Some(FromHeadlightBundle::Control(control))
        } else {
            None
        }
    }

    /// The regulator's latest snapshot, if one waits. Never suspends.
    pub fn get_monitor_immediately(&self, regulator_proxy: &mut RegulatorProxy) -> (monitor: Option<
        Monitor,
    >)
        ensures
            monitor == old(regulator_proxy).monitor.slot,
            *final(regulator_proxy) == (RegulatorProxy {
                monitor: Mailbox { slot: None },
                ..*old(regulator_proxy)
            }),
    {
        regulator_proxy.get_monitor_immediately()
    }

    /// Asks the regulator to shut down. The output is off once the regulator
    /// has confirmed.
    pub fn shutdown_regulation(&self, regulator_proxy: &mut RegulatorProxy)
        ensures
            *final(regulator_proxy) == (RegulatorProxy {
                shutdown_start: Mailbox { slot: Some(()) },
                ..*old(regulator_proxy)
            }),
    {
        regulator_proxy.shutdown();
    }

    /// Takes over a change of status that the regulator has signaled, mode and
    /// error at once, and returns the status to send. Without a change nothing
    /// happens. A status that is not consistent is not taken over; it is consumed
    /// all the same.
    pub fn observe_regulator(&mut self, regulator_proxy: &mut RegulatorProxy) -> (bundle: Option<
        FromHeadlightBundle,
    >)
        ensures
            *final(regulator_proxy) == (RegulatorProxy {
                status: Mailbox { slot: None },
                ..*old(regulator_proxy)
            }),
            final(self)@ == observed(old(self)@, old(regulator_proxy).status.slot),
            bundle == match old(regulator_proxy).status.slot {
                Some(status) => if status.consistent() {
                    Some(FromHeadlightBundle::Status(status))
                } else {
                    None
                },
                None => None,
            },
    {
        proof {
            use_type_invariant(&*self);
        }
        match regulator_proxy.wait_for_new_status() {
            Some(status) => {
                if status.mode == Mode::Fault && status.error == HeadlightError::NoError {
                    return None;
                }
                self.status = status;
                Some(FromHeadlightBundle::Status(status))
            },
            None => None,
        }
    }

    /// The status to send when the supervisor starts.
    pub fn announce(&self) -> (bundle: FromHeadlightBundle)
        ensures
            bundle == FromHeadlightBundle::Status(self@.status),
    {
        FromHeadlightBundle::Status(self.status)
    }
}

/// The model after the supervisor has looked for a change of status.
pub open spec fn observed(model: ModelView, signaled: Option<Status>) -> ModelView {
    match signaled {
        Some(status) => if status.consistent() {
            ModelView { status, ..model }
        } else {
            model
        },
        None => model,
    }
}

} // verus!
