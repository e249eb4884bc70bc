//! The regulation loop: fault detection, thermal derating and the duty cycle, one
//! tick at a time, and the mailboxes between the loop and its supervisor.

use crate::adc::{ma_of, mv_of, mv_to_ma, sample_to_mv};
use crate::commands::{Config, Control, Monitor, Status};
use crate::limits::EPSILON;
use crate::thermistor::{celsius_to_sample, sample_at};
use crate::types::{HeadlightError, Mode, RuntimeError};
use vstd::prelude::*;

verus! {

/// A slot for one value that a writer leaves for a reader. A new value replaces
/// one that was not read; reading empties the slot.
pub struct Mailbox<T> {
    /// The value that was signaled and not read yet.
    pub slot: Option<T>,
}

/// The slot after `value` was signaled: it holds `value`, whatever it held.
pub open spec fn after_signal<T>(slot: Option<T>, value: T) -> Option<T> {
    Some(value)
}

/// The slot after a wait returned: it is empty.
pub open spec fn after_wait<T>(slot: Option<T>) -> Option<T> {
    None
}

impl<T> Mailbox<T> {
    pub fn new() -> (mailbox: Self)
        ensures
            mailbox.slot is None,
    {
        Mailbox { slot: None }
    }

    /// Leaves `value` in the slot, in place of what was there.
    pub fn signal(&mut self, value: T)
        ensures
            final(self).slot == after_signal(old(self).slot, value),
    {
        self.slot = Some(value);
    }

    /// Whether a value waits to be read.
    pub fn signaled(&self) -> (waiting: bool)
        ensures
            waiting == self.slot is Some,
    {
        self.slot.is_some()
    }

    /// Takes the value out of the slot. A reader that finds no value has to
    /// suspend until one is signaled, so this is for a slot that holds one.
    pub fn wait(&mut self) -> (value: T)
        requires
            old(self).slot is Some,
        ensures
            Some(value) == old(self).slot,
            final(self).slot == after_wait(old(self).slot),
    {
        self.slot.take().unwrap()
    }
}

/// Of two values signaled with no wait between them, the next wait delivers the
/// second, and nothing is left for the wait after it.
pub proof fn latest_wins<T>(slot: Option<T>, first: T, second: T)
    ensures
        after_signal(after_signal(slot, first), second) == Some(second),
        after_wait(after_signal(after_signal(slot, first), second)) == None::<T>,
{
}

/// The mailboxes between the regulation loop and its supervisor, and the two
/// signals of the shutdown handshake.
pub struct RegulatorProxy {
    /// The control that the supervisor wants in force.
    pub control: Mailbox<Control>,
    /// The latest snapshot of the loop.
    pub monitor: Mailbox<Monitor>,
    /// The latest change of status.
    pub status: Mailbox<Status>,
    /// The supervisor asks the loop to end. Only the loop looks at it.
    pub shutdown_start: Mailbox<()>,
    /// The loop has ended and the output is off. Only the supervisor looks at it.
    pub shutdown_confirm: Mailbox<()>,
}

impl RegulatorProxy {
    pub fn new() -> (proxy: Self)
        ensures
            proxy.control.slot is None,
            proxy.monitor.slot is None,
            proxy.status.slot is None,
            proxy.shutdown_start.slot is None,
            proxy.shutdown_confirm.slot is None,
    {
        RegulatorProxy {
            control: Mailbox::new(),
            monitor: Mailbox::new(),
            status: Mailbox::new(),
            shutdown_start: Mailbox::new(),
            shutdown_confirm: Mailbox::new(),
        }
    }

    /// Leaves `control` for the loop to adopt at its next tick.
    pub fn set_control(&mut self, control: Control)
        ensures
            *final(self) == (RegulatorProxy {
                control: Mailbox { slot: Some(control) },
                ..*old(self)
            }),
    {
        self.control.signal(control);
    }

    /// The latest snapshot, if there is one that was not read yet. Never
    /// suspends.
    pub fn get_monitor_immediately(&mut self) -> (monitor: Option<Monitor>)
        ensures
            monitor == old(self).monitor.slot,
            *final(self) == (RegulatorProxy { monitor: Mailbox { slot: None }, ..*old(self) }),
    {
        if self.monitor.signaled() {
            Some(self.monitor.wait())
        } else {
            None
        }
    }

    /// First phase of the shutdown handshake: asks the loop to end.
    pub fn shutdown(&mut self)
        ensures
            *final(self) == (RegulatorProxy {
                shutdown_start: Mailbox { slot: Some(()) },
                ..*old(self)
            }),
    {
        self.shutdown_start.signal(());
    }

    /// Second phase of the shutdown handshake: whether the loop has confirmed
    /// that it ended, which it does once the output is off. A confirmation is
    /// consumed; without one the supervisor has to suspend and ask again.
    pub fn shutdown_confirmed(&mut self) -> (confirmed: bool)
        ensures
            confirmed == old(self).shutdown_confirm.slot is Some,
            *final(self) == (RegulatorProxy {
                shutdown_confirm: Mailbox { slot: None },
                ..*old(self)
            }),
    {
        if self.shutdown_confirm.signaled() {
            self.shutdown_confirm.wait();
            true
        } else {
            false
        }
    }

    /// The latest change of status, if there is one that was not read yet.
    pub fn wait_for_new_status(&mut self) -> (status: Option<Status>)
        ensures
            status == old(self).status.slot,
            *final(self) == (RegulatorProxy { status: Mailbox { slot: None }, ..*old(self) }),
    {
        if self.status.signaled() {
            Some(self.status.wait())
        } else {
            None
        }
    }
}

/// What the output stage is commanded to do. The regulation loop owns it; whoever
/// runs the loop applies it to the pins.
#[derive(Debug, Clone, Copy, PartialEq, Eq, Structural)]
pub struct RegulatorHardware {
    /// The number of duty steps of the PWM timer.
    pub pwm_steps: u16,
    /// The duty cycle of the PWM channel.
    pub duty: u16,
    /// Whether the PWM channel runs.
    pub pwm: bool,
    /// Level of the line that enables the half bridge.
    pub enable: bool,
    /// Level of the fault indicator.
    pub fault: bool,
}

impl RegulatorHardware {
    /// Whether the output stage is off: the PWM channel stopped and the half
    /// bridge disabled.
    pub open spec fn de_energized(self) -> bool {
        !self.pwm && !self.enable
    }
}

/// The order of the shutdown handshake: while a confirmation waits for the
/// supervisor, the output stage is off.
pub open spec fn off_when_confirmed(regulator: Regulator, proxy: RegulatorProxy) -> bool {
    proxy.shutdown_confirm.slot is Some ==> regulator.hw.de_energized()
}

/// What the loop carries from one tick to the next.
#[derive(Debug, Clone, Copy, PartialEq, Eq, Structural)]
pub struct LoopState {
    /// The control in force.
    pub control: Control,
    /// The duty cycle that was applied last.
    pub duty: u16,
    /// The current at which the controller last turned down.
    pub upper_current: u16,
    /// The current at which the controller last turned up.
    pub lower_current: u16,
    /// The status that was signaled last.
    pub status: Status,
}

/// The regulation loop's limits and its output stage.
#[derive(Debug, Clone, Copy, PartialEq, Eq, Structural)]
pub struct Regulator {
    pub hw: RegulatorHardware,
    /// Highest target current.
    pub max_target: u16,
    /// Highest current that the load may carry.
    pub max_current: u16,
    /// Highest duty cycle.
    pub max_duty: u16,
    /// Thermistor sample from which the target is derated.
    pub throttle_start: u16,
    /// Thermistor sample at which the derated target reaches zero.
    pub throttle_stop: u16,
}

/// `prev + delta`, held within `u16`.
pub open spec fn stepped(prev: u16, delta: i16) -> u16 {
    if prev + delta < 0 {
        0
    } else if prev + delta > u16::MAX {
        u16::MAX
    } else {
        (prev + delta) as u16
    }
}

/// Current and temperature of one tick, from the samples of the reference, the
/// thermistor and the current sense. The temperature stays a raw sample.
pub open spec fn reading_of(vref: u16, raw_temp: u16, raw_current: u16) -> Option<(u16, u16)> {
    match mv_of(raw_current, vref) {
        Some(mv) => match ma_of(mv) {
            Some(ma) => Some((ma, raw_temp)),
            None => None,
        },
        None => None,
    }
}

/// The five arguments of the controller's constructor, in its order, for a
/// configuration: no proportional term, the gain as integral term, no derivative
/// term, then the PWM frequency divided by the gain, rounded up, and the PWM
/// frequency.
pub open spec fn controller_terms(config: Config) -> (int, int, int, int, int) {
    (
        0,
        config.gain as int,
        0,
        (config.pwm_freq + config.gain - 1) / (config.gain as int),
        config.pwm_freq as int,
    )
}

impl Regulator {
    /// The regulator for a configuration, with the output stage as it is handed
    /// over. The highest duty cycle is one step below the timer's.
    pub fn new(hw: RegulatorHardware, config: &Config) -> (regulator: Self)
        requires
            hw.pwm_steps >= 1,
            config.throttle_start < 100,
            config.throttle_stop < 100,
        ensures
            regulator == (Regulator {
                hw,
                max_target: config.max_target_current,
                max_current: config.abs_max_load_current,
                max_duty: (hw.pwm_steps - 1) as u16,
                throttle_start: sample_at(config.throttle_start as int),
                throttle_stop: sample_at(config.throttle_stop as int),
            }),
    {
        Regulator {
            hw,
            max_target: config.max_target_current,
            max_current: config.abs_max_load_current,
            max_duty: hw.pwm_steps - 1,
            throttle_start: celsius_to_sample(config.throttle_start),
            throttle_stop: celsius_to_sample(config.throttle_stop),
        }
    }

    /// The arguments with which the controller of this configuration is made.
    pub fn controller(config: &Config) -> (terms: (i32, i32, i32, i32, i32))
        requires
            config.gain >= 1,
        ensures
            (terms.0 as int, terms.1 as int, terms.2 as int, terms.3 as int, terms.4 as int)
                == controller_terms(*config),
    {
        let gain: u32 = config.gain as u32;
        let freq: u32 = config.pwm_freq as u32;
        let quotient: u32 = (freq + gain - 1) / gain;
        assert(quotient <= freq + gain - 1) by (nonlinear_arith)
            requires
                quotient == (freq + gain - 1) / (gain as int),
                gain >= 1,
        ;
        (0, gain as i32, 0, quotient as i32, freq as i32)
    }

    /// Energizes the output stage: the half bridge enabled, the PWM channel
    /// running.
    pub fn startup(&mut self)
        ensures
            *final(self) == (Regulator {
                hw: RegulatorHardware { enable: true, pwm: true, ..old(self).hw },
                ..*old(self)
            }),
    {
        self.hw.enable = true;
        self.hw.pwm = true;
    }

    /// De-energizes the output stage: the PWM channel stopped, then the half
    /// bridge disabled.
    pub fn shutdown(&mut self)
        ensures
            *final(self) == (Regulator {
                hw: RegulatorHardware { enable: false, pwm: false, ..old(self).hw },
                ..*old(self)
            }),
            final(self).hw.de_energized(),
    {
        self.hw.pwm = false;
        self.hw.enable = false;
    }

    /// Current in mA and raw temperature of one tick. There is no reading where
    /// the conversion of the current overflows or the reference sample is zero.
    pub fn get_reading(&self, vref_sample: u16, raw_temp: u16, raw_current: u16) -> (reading:
        Option<(u16, u16)>)
        ensures
            reading == reading_of(vref_sample, raw_temp, raw_current),
    {
        match sample_to_mv(raw_current, vref_sample) {
            Some(mv) => match mv_to_ma(mv) {
                Some(ma) => Some((ma, raw_temp)),
                None => None,
            },
            None => None,
        }
    }

    /// The fault that a reading shows, if any. The first of these wins: a
    /// current above the highest load current by more than the measurement
    /// error; a current below the target with the duty cycle at its highest; a
    /// temperature above the one at which throttling stops.
    pub open spec fn fault(&self, current: u16, target: u16, temperature: u16, duty: u16) -> Option<
        RuntimeError,
    > {
        if current > self.max_current + EPSILON {
            Some(RuntimeError::Overcurrent)
        } else if current < target && duty == self.max_duty {
            Some(RuntimeError::InvariantLoad)
        } else if temperature > self.throttle_stop {
            Some(RuntimeError::Overtemperature)
        } else {
            None
        }
    }

    pub fn check_fault(&self, current: u16, target: u16, temperature: u16, duty: u16) -> (r: Option<
        RuntimeError,
    >)
        ensures
            r == self.fault(current, target, temperature, duty),
            current > self.max_current + EPSILON ==> r == Some(RuntimeError::Overcurrent),
    {
        if current as u32 > self.max_current as u32 + EPSILON as u32 {
            Some(RuntimeError::Overcurrent)
        } else if current < target && duty == self.max_duty {
            Some(RuntimeError::InvariantLoad)
        } else if temperature > self.throttle_stop {
            Some(RuntimeError::Overtemperature)
        } else {
            None
        }
    }

    /// The derated target at `temperature`: the highest target, scaled down in
    /// proportion to how far the temperature is on its way from the start of
    /// throttling to its stop.
    pub open spec fn ramp(&self, temperature: u16) -> int {
        (self.throttle_stop - temperature) * self.max_target / (self.throttle_stop
            - self.throttle_start)
    }

    /// The target of a tick and whether it is derated. Below the start of
    /// throttling the target is the requested one; from there on it is the
    /// smaller of the requested target and the ramp. A ramp of no width has no
    /// slope: that is an arithmetic error.
    pub open spec fn throttled(&self, temperature: u16, target: u16) -> Result<
        (u16, bool),
        RuntimeError,
    > {
        if temperature >= self.throttle_start {
            if self.throttle_stop == self.throttle_start {
                Err(RuntimeError::ArithmeticError)
            } else if target <= self.ramp(temperature) {
                Ok((target, true))
            } else {
                Ok((self.ramp(temperature) as u16, true))
            }
        } else {
            Ok((target, false))
        }
    }

    pub fn thermal_throttle(&self, temperature: u16, target: u16) -> (r: Result<
        (u16, bool),
        RuntimeError,
    >)
        requires
            temperature <= self.throttle_stop,
        ensures
            r == self.throttled(temperature, target),
    {
        if temperature >= self.throttle_start {
            let left: u32 = (self.throttle_stop - temperature) as u32;
            let width: u32 = (self.throttle_stop - self.throttle_start) as u32;
            let max_target: u32 = self.max_target as u32;
            if width == 0 {
                return Err(RuntimeError::ArithmeticError);
            }
            assert(left * max_target <= 0xffff * 0xffff) by (nonlinear_arith)
                requires
                    left <= 0xffff,
                    max_target <= 0xffff,
            ;
            let ramp: u32 = left * max_target / width;
            assert(ramp <= max_target) by (nonlinear_arith)
                requires
                    ramp == left * max_target / (width as int),
                    left <= width,
                    width > 0,
            ;
            if (target as u32) <= ramp {
                Ok((target, true))
            } else {
                Ok((ramp as u16, true))
            }
        } else {
            Ok((target, false))
        }
    }

    /// The duty cycle that follows `prev_duty` when the controller asks for a
    /// change of `delta`: their sum, held within `u16` and below the highest
    /// duty cycle.
    pub open spec fn duty_after(&self, prev_duty: u16, delta: i16) -> u16 {
        if stepped(prev_duty, delta) <= self.max_duty {
            stepped(prev_duty, delta)
        } else {
            self.max_duty
        }
    }

    /// Takes the controller's answer for this tick. An answer of `None` is an
    /// overflow in the controller. Otherwise the current bounds are moved: a
    /// controller that turns up, or a current below the lower bound, sets the
    /// lower bound to the current; one that turns down, or a current above the
    /// upper bound, sets the upper bound.
    pub fn next_duty(
        &self,
        delta: Option<i16>,
        current: u16,
        upper: &mut u16,
        lower: &mut u16,
        prev_duty: u16,
    ) -> (r: Result<u16, RuntimeError>)
        ensures
            delta is None ==> r == Err::<u16, RuntimeError>(RuntimeError::ArithmeticError)
                && *final(upper) == *old(upper) && *final(lower) == *old(lower),
            delta matches Some(d) ==> r == Ok::<u16, RuntimeError>(self.duty_after(prev_duty, d))
                && *final(lower) == lower_after(*old(lower), current, d) && *final(upper)
                == upper_after(*old(upper), current, d),
    {
        match delta {
            Some(d) => {
                if current < *lower || d > 0 {
                    *lower = current;
                }
                if current > *upper || d < 0 {
                    *upper = current;
                }
                let sum: i32 = prev_duty as i32 + d as i32;
                let held: u16 = if sum < 0 {
                    0
                } else if sum > u16::MAX as i32 {
                    u16::MAX
                } else {
                    sum as u16
                };
                if held <= self.max_duty {
                    Ok(held)
                } else {
                    Ok(self.max_duty)
                }
            },
            None => Err(RuntimeError::ArithmeticError),
        }
    }
}

/// What the loop does after a tick.
#[derive(Debug, Clone, Copy, PartialEq, Eq, Structural)]
pub enum Next {
    /// Wait for the next tick.
    Wait,
    /// Leave the loop: the supervisor asked for a shutdown.
    Stop,
}

/// The status with which the loop starts.
pub open spec fn running() -> Status {
    Status { mode: Mode::Running, error: HeadlightError::NoError }
}

/// The mode of a tick that found no fault.
pub open spec fn mode_of(throttling: bool) -> Mode {
    if throttling {
        Mode::Throttling
    } else {
        Mode::Running
    }
}

/// The status with which the loop ends: a fault with its error, or idle.
pub open spec fn final_status(status: Status, error: Option<RuntimeError>) -> Status {
    match error {
        Some(e) => Status { mode: Mode::Fault, error: HeadlightError::Runtime { e } },
        None => Status { mode: Mode::Idle, error: status.error },
    }
}

impl Regulator {
    /// What a tick finds before the controller is asked: the fault that ends the
    /// loop, or the target for the controller and the mode to be in. A tick
    /// without a reading ends the loop with an arithmetic error.
    pub open spec fn planned(&self, state: LoopState, reading: Option<(u16, u16)>) -> Result<
        (u16, Mode),
        RuntimeError,
    > {
        match reading {
            None => Err(RuntimeError::ArithmeticError),
            Some((current, temperature)) => match self.fault(
                current,
                state.control.target,
                temperature,
                state.duty,
            ) {
                Some(e) => Err(e),
                None => match self.throttled(temperature, state.control.target) {
                    Err(e) => Err(e),
                    Ok((target, throttling)) => Ok((target, mode_of(throttling))),
                },
            },
        }
    }

    /// Starts the loop once a control waits in the proxy: adopts it, energizes
    /// the output stage and signals that regulation runs. Without a control
    /// nothing happens, and the loop has to suspend until one is signaled.
    pub fn begin(&mut self, proxy: &mut RegulatorProxy) -> (state: Option<LoopState>)
        ensures
            old(proxy).shutdown_confirm.slot is None ==> off_when_confirmed(
                *final(self),
                *final(proxy),
            ),
            old(proxy).control.slot is None ==> state is None && *final(self) == *old(self)
                && *final(proxy) == *old(proxy),
            old(proxy).control.slot matches Some(control) ==> state == Some(
                LoopState {
                    control,
                    duty: 0,
                    upper_current: 0,
                    lower_current: 0,
                    status: running(),
                },
            ) && *final(self) == (Regulator {
                hw: RegulatorHardware { enable: true, pwm: true, ..old(self).hw },
                ..*old(self)
            }) && *final(proxy) == (RegulatorProxy {
                control: Mailbox { slot: None },
                status: Mailbox { slot: Some(running()) },
                ..*old(proxy)
            }),
    {
        if !proxy.control.signaled() {
            return None;
        }
        let control = proxy.control.wait();
        let status = Status { mode: Mode::Running, error: HeadlightError::NoError };
        self.startup();
        proxy.status.signal(status);
        Some(LoopState { control, duty: 0, upper_current: 0, lower_current: 0, status })
    }

    /// First half of a tick, on the reading just taken: checks for faults, then
    /// derates the target. A change between running and throttling is signaled
    /// once, when it happens. Returns the target for the controller, or the
    /// error that ends the loop.
    pub fn sense(
        &self,
        state: &mut LoopState,
        proxy: &mut RegulatorProxy,
        reading: Option<(u16, u16)>,
    ) -> (r: Result<u16, RuntimeError>)
        ensures
            off_when_confirmed(*self, *old(proxy)) ==> off_when_confirmed(*self, *final(proxy)),
            self.planned(*old(state), reading) matches Err(e) ==> r == Err::<u16, RuntimeError>(e)
                && *final(state) == *old(state) && *final(proxy) == *old(proxy),
            self.planned(*old(state), reading) matches Ok((target, mode)) ==> r == Ok::<
                u16,
                RuntimeError,
            >(target) && *final(state) == (LoopState {
                status: Status { mode, error: old(state).status.error },
                ..*old(state)
            }) && *final(proxy) == (if mode != old(state).status.mode {
                RegulatorProxy {
                    status: Mailbox {
                        slot: Some(Status { mode, error: old(state).status.error }),
                    },
                    ..*old(proxy)
                }
            } else {
                *old(proxy)
            }),
    {
        let (current, temperature) = match reading {
            Some(reading) => reading,
            None => {
                return Err(RuntimeError::ArithmeticError);
            },
        };
        if let Some(error) = self.check_fault(current, state.control.target, temperature, state.duty) {
            return Err(error);
        }
        match self.thermal_throttle(temperature, state.control.target) {
            Ok((throttled_target, throttling)) => {
                if throttling && state.status.mode != Mode::Throttling {
                    state.status.mode = Mode::Throttling;
                    proxy.status.signal(state.status);
                } else if !throttling && state.status.mode != Mode::Running {
                    state.status.mode = Mode::Running;
                    proxy.status.signal(state.status);
                }
                Ok(throttled_target)
            },
            Err(e) => Err(e),
        }
    }

    /// Second half of a tick, on the controller's answer: sets the new duty
    /// cycle, adopts a control that waits in the proxy, publishes the snapshot
    /// of this tick, and looks for a shutdown request. An answer of `None` ends
    /// the loop with an arithmetic error and changes nothing.
    pub fn actuate(
        &mut self,
        state: &mut LoopState,
        proxy: &mut RegulatorProxy,
        current: u16,
        temperature: u16,
        delta: Option<i16>,
    ) -> (r: Result<Next, RuntimeError>)
        ensures
            off_when_confirmed(*old(self), *old(proxy)) ==> off_when_confirmed(
                *final(self),
                *final(proxy),
            ),
            delta is None ==> r == Err::<Next, RuntimeError>(RuntimeError::ArithmeticError)
                && *final(self) == *old(self) && *final(state) == *old(state) && *final(proxy)
                == *old(proxy),
            delta matches Some(d) ==> r == Ok::<Next, RuntimeError>(
                if old(proxy).shutdown_start.slot is Some {
                    Next::Stop
                } else {
                    Next::Wait
                },
            ) && *final(self) == (Regulator {
                hw: RegulatorHardware {
                    duty: old(self).duty_after(old(state).duty, d),
                    ..old(self).hw
                },
                ..*old(self)
            }) && *final(state) == (LoopState {
                control: match old(proxy).control.slot {
                    Some(control) => control,
                    None => old(state).control,
                },
                duty: old(self).duty_after(old(state).duty, d),
                upper_current: upper_after(old(state).upper_current, current, d),
                lower_current: lower_after(old(state).lower_current, current, d),
                status: old(state).status,
            }) && *final(proxy) == (RegulatorProxy {
                control: Mailbox { slot: None },
                monitor: Mailbox {
                    slot: Some(
                        Monitor {
                            duty: final(state).duty,
                            upper_current: final(state).upper_current,
                            lower_current: final(state).lower_current,
                            temperature,
                        },
                    ),
                },
                ..*old(proxy)
            }),
    {
        let mut upper = state.upper_current;
        let mut lower = state.lower_current;
        match self.next_duty(delta, current, &mut upper, &mut lower, state.duty) {
            Ok(new_duty) => {
                self.hw.duty = new_duty;
                state.duty = new_duty;
                state.upper_current = upper;
                state.lower_current = lower;
            },
            Err(e) => {
                return Err(e);
            },
        }
        if proxy.control.signaled() {
            state.control = proxy.control.wait();
        }
        proxy.monitor.signal(
            Monitor {
                duty: state.duty,
                upper_current: state.upper_current,
                lower_current: state.lower_current,
                temperature,
            },
        );
        if proxy.shutdown_start.signaled() {
            Ok(Next::Stop)
        } else {
            Ok(Next::Wait)
        }
    }

    /// Ends the loop, after a fault or a shutdown request alike: de-energizes
    /// the output stage and only then confirms the shutdown. A fault raises the
    /// fault indicator. The closing status is signaled last.
    pub fn finish(
        &mut self,
        state: &mut LoopState,
        proxy: &mut RegulatorProxy,
        error: Option<RuntimeError>,
    )
        ensures
            final(self).hw.de_energized(),
            final(proxy).shutdown_confirm.slot is Some,
            off_when_confirmed(*final(self), *final(proxy)),
            *final(self) == (Regulator {
                hw: RegulatorHardware {
                    enable: false,
                    pwm: false,
                    fault: old(self).hw.fault || error is Some,
                    ..old(self).hw
                },
                ..*old(self)
            }),
            *final(state) == (LoopState {
                status: final_status(old(state).status, error),
                ..*old(state)
            }),
            *final(proxy) == (RegulatorProxy {
                shutdown_confirm: Mailbox { slot: Some(()) },
                status: Mailbox { slot: Some(final_status(old(state).status, error)) },
                ..*old(proxy)
            }),
    {
        self.shutdown();
        proxy.shutdown_confirm.signal(());
        match error {
            Some(e) => {
                state.status.mode = Mode::Fault;
                state.status.error = HeadlightError::Runtime { e };
                self.hw.fault = true;
            },
            None => {
                state.status.mode = Mode::Idle;
            },
        }
        proxy.status.signal(state.status);
    }
}

/// Fault precedence: a current that is too high is reported as overcurrent,
/// whatever else the reading shows, and a load that does not follow at the
/// highest duty cycle is reported before a temperature that is too high.
pub proof fn fault_precedence(
    regulator: Regulator,
    current: u16,
    target: u16,
    temperature: u16,
    duty: u16,
)
    ensures
        current > regulator.max_current + EPSILON ==> regulator.fault(
            current,
            target,
            temperature,
            duty,
        ) == Some(RuntimeError::Overcurrent),
        current <= regulator.max_current + EPSILON && current < target && duty
            == regulator.max_duty ==> regulator.fault(current, target, temperature, duty) == Some(
            RuntimeError::InvariantLoad,
        ),
        regulator.fault(current, target, temperature, duty) == Some(RuntimeError::Overtemperature)
            ==> temperature > regulator.throttle_stop && current <= regulator.max_current
            + EPSILON && !(current < target && duty == regulator.max_duty),
        regulator.fault(current, target, temperature, duty) is None ==> temperature
            <= regulator.throttle_stop,
{
}

/// The throttle ramp: at the start of throttling the ramp stands at the highest
/// target, so a requested target within the configured bound is passed on as it
/// is; at the stop of throttling the target is zero; between the two the ramp
/// falls in proportion to the temperature, and never rises with it.
pub proof fn throttle_ramp(regulator: Regulator, target: u16, cooler: u16, warmer: u16)
    requires
        regulator.throttle_start < regulator.throttle_stop,
        regulator.throttle_start <= cooler <= warmer <= regulator.throttle_stop,
    ensures
        regulator.ramp(regulator.throttle_start) == regulator.max_target,
        target <= regulator.max_target ==> regulator.throttled(regulator.throttle_start, target)
            == Ok::<(u16, bool), RuntimeError>((target, true)),
        regulator.ramp(regulator.throttle_stop) == 0,
        regulator.throttled(regulator.throttle_stop, target) == Ok::<(u16, bool), RuntimeError>(
            (0, true),
        ),
        0 <= regulator.ramp(warmer) <= regulator.ramp(cooler) <= regulator.max_target,
        regulator.throttled(cooler, target) == Ok::<(u16, bool), RuntimeError>(
            (
                if target <= regulator.ramp(cooler) {
                    target
                } else {
                    regulator.ramp(cooler) as u16
                },
                true,
            ),
        ),
{
    let width = regulator.throttle_stop - regulator.throttle_start;
    let max = regulator.max_target as int;
    let left_cooler = regulator.throttle_stop - cooler;
    let left_warmer = regulator.throttle_stop - warmer;
    assert(width * max / width == max) by (nonlinear_arith)
        requires
            width > 0,
    ;
    assert(0 * max / width == 0) by (nonlinear_arith)
        requires
            width > 0,
    ;
    assert(0 <= left_warmer * max / width <= left_cooler * max / width <= width * max / width)
        by (nonlinear_arith)
        requires
            width > 0,
            max >= 0,
            0 <= left_warmer <= left_cooler <= width,
    ;
}

/// The lower current bound after a tick.
pub open spec fn lower_after(lower: u16, current: u16, delta: i16) -> u16 {
    if current < lower || delta > 0 {
        current
    } else {
        lower
    }
}

/// The upper current bound after a tick.
pub open spec fn upper_after(upper: u16, current: u16, delta: i16) -> u16 {
    if current > upper || delta < 0 {
        current
    } else {
        upper
    }
}

} // verus!
