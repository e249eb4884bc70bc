//! The commands that the two controllers exchange, and their payloads on the wire.
//!
//! A payload has a fixed size that its command decides. Fields follow each other
//! in declaration order without padding.

use crate::types::{CommandID, Firmware, Hardware, HeadlightError, Mode, Version};
use crate::wire::{bool_of, bool_wire, get_u16, put_u16, u16_of, u16_wire};
use vstd::prelude::*;

verus! {

/// A payload type that travels in a frame of its own, under its identifier.
pub trait HeadlightCommand {
    const ID: CommandID;
}

/// A diagnostic that the wireless bridge raises towards its client.
#[derive(Debug, Clone, Copy, PartialEq, Eq, Structural)]
pub enum AppError {
    NoError,
    /// The client wrote bytes that are no command.
    InvalidPacket,
    /// A command built from the client's bytes could not be sent on.
    SendFault,
    /// The client wrote a command before the previous one was dispatched.
    TooFast,
}

impl AppError {
    /// Number of bytes of the encoding.
    pub const SIZE: usize = 1;

    pub open spec fn wire(self) -> Seq<u8> {
        seq![
            match self {
                AppError::NoError => 0x00u8,
                AppError::InvalidPacket => 0x10u8,
                AppError::SendFault => 0x11u8,
                AppError::TooFast => 0x12u8,
            },
        ]
    }

    pub open spec fn of_wire(bytes: Seq<u8>) -> Option<Self> {
        if bytes.len() != 1 {
            None
        } else if bytes[0] == 0x00 {
            Some(AppError::NoError)
        } else if bytes[0] == 0x10 {
            Some(AppError::InvalidPacket)
        } else if bytes[0] == 0x11 {
            Some(AppError::SendFault)
        } else if bytes[0] == 0x12 {
            Some(AppError::TooFast)
        } else {
            None
        }
    }

    pub fn serialize(&self) -> (bytes: Vec<u8>)
        ensures
            bytes@ == self.wire(),
    {
        let byte: u8 = match self {
            AppError::NoError => 0x00,
            AppError::InvalidPacket => 0x10,
            AppError::SendFault => 0x11,
            AppError::TooFast => 0x12,
        };
        let bytes = vec![byte];
        assert(bytes@ =~= self.wire());
        bytes
    }

    pub fn deserialize(bytes: &[u8]) -> (r: Option<Self>)
        ensures
            r == Self::of_wire(bytes@),
    {
        if bytes.len() != 1 {
            return None;
        }
        match bytes[0] {
            0x00 => Some(AppError::NoError),
            0x10 => Some(AppError::InvalidPacket),
            0x11 => Some(AppError::SendFault),
            0x12 => Some(AppError::TooFast),
            _ => None,
        }
    }

    /// Decoding undoes encoding, and an encoding has `SIZE` bytes.
    pub proof fn decode_encoded(self)
        ensures
            self.wire().len() == Self::SIZE,
            Self::of_wire(self.wire()) == Some(self),
    {
    }

    /// Only the encoding of a value decodes to it.
    pub proof fn encode_decoded(bytes: Seq<u8>)
        ensures
            Self::of_wire(bytes) matches Some(value) ==> value.wire() == bytes,
    {
        if let Some(value) = Self::of_wire(bytes) {
            assert(value.wire() =~= bytes);
        }
    }
}

/// Asks the device for one of its records.
#[derive(Debug, Clone, Copy, PartialEq, Eq, Structural)]
pub enum Request {
    Status,
    Control,
    Monitor,
    Config,
}

impl HeadlightCommand for Request {
    const ID: CommandID = Request::ID;
}

impl Request {
    /// The identifier that opens a frame of this command.
    pub const ID: CommandID = 0x10;

    /// Number of bytes of the payload.
    pub const SIZE: usize = 1;

    /// One byte: the identifier of the command asked for.
    pub open spec fn wire(self) -> Seq<u8> {
        seq![
            match self {
                Request::Status => 0x1fu8,
                Request::Control => 0xaau8,
                Request::Monitor => 0xabu8,
                Request::Config => 0xacu8,
            },
        ]
    }

    pub open spec fn of_wire(bytes: Seq<u8>) -> Option<Self> {
        if bytes.len() != 1 {
            None
        } else if bytes[0] == 0x1f {
            Some(Request::Status)
        } else if bytes[0] == 0xaa {
            Some(Request::Control)
        } else if bytes[0] == 0xab {
            Some(Request::Monitor)
        } else if bytes[0] == 0xac {
            Some(Request::Config)
        } else {
            None
        }
    }

    pub fn serialize(&self) -> (bytes: Vec<u8>)
        ensures
            bytes@ == self.wire(),
    {
        let byte: u8 = match self {
            Request::Status => 0x1f,
            Request::Control => 0xaa,
            Request::Monitor => 0xab,
            Request::Config => 0xac,
        };
        let bytes = vec![byte];
        assert(bytes@ =~= self.wire());
        bytes
    }

    pub fn deserialize(bytes: &[u8]) -> (r: Option<Self>)
        ensures
            r == Self::of_wire(bytes@),
    {
        if bytes.len() != 1 {
            return None;
        }
        match bytes[0] {
            0x1f => Some(Request::Status),
            0xaa => Some(Request::Control),
            0xab => Some(Request::Monitor),
            0xac => Some(Request::Config),
            _ => None,
        }
    }

    /// Decoding undoes encoding, and an encoding has `SIZE` bytes.
    pub proof fn decode_encoded(self)
        ensures
            self.wire().len() == Self::SIZE,
            Self::of_wire(self.wire()) == Some(self),
    {
    }

    /// Only the encoding of a value decodes to it.
    pub proof fn encode_decoded(bytes: Seq<u8>)
        ensures
            Self::of_wire(bytes) matches Some(value) ==> value.wire() == bytes,
    {
        if let Some(value) = Self::of_wire(bytes) {
            assert(value.wire() =~= bytes);
        }
    }
}

/// Mode and error of the device.
#[derive(Debug, Clone, Copy, PartialEq, Eq, Structural)]
pub struct Status {
    pub mode: Mode,
    pub error: HeadlightError,
}

impl HeadlightCommand for Status {
    const ID: CommandID = Status::ID;
}

impl Default for Status {
    fn default() -> (status: Self)
        ensures
            status == (Status { mode: Mode::Idle, error: HeadlightError::NoError }),
    {
        Status { mode: Mode::Idle, error: HeadlightError::NoError }
    }
}

impl Status {
    /// The identifier that opens a frame of this command.
    pub const ID: CommandID = 0x1f;

    /// Number of bytes of the payload.
    pub const SIZE: usize = 3;

    /// A status in `Fault` mode names the error that caused the fault.
    pub open spec fn consistent(self) -> bool {
        self.mode == Mode::Fault ==> self.error != HeadlightError::NoError
    }

    pub open spec fn wire(self) -> Seq<u8> {
        seq![self.mode.wire()] + self.error.wire()
    }

    pub open spec fn of_wire(bytes: Seq<u8>) -> Option<Self> {
        if bytes.len() != 3 {
            None
        } else {
            match (Mode::of_wire(bytes[0]), HeadlightError::of_wire(bytes[1], bytes[2])) {
                (Some(mode), Some(error)) => Some(Status { mode, error }),
                _ => None,
            }
        }
    }

    pub fn serialize(&self) -> (bytes: Vec<u8>)
        ensures
            bytes@ == self.wire(),
    {
        let error = self.error.to_bytes();
        let bytes = vec![self.mode.to_byte(), error.0, error.1];
        assert(bytes@ =~= seq![self.mode.wire()] + seq![error.0, error.1]);
        bytes
    }

    pub fn deserialize(bytes: &[u8]) -> (r: Option<Self>)
        ensures
            r == Self::of_wire(bytes@),
    {
        if bytes.len() != 3 {
            return None;
        }
        match (Mode::from_byte(bytes[0]), HeadlightError::from_bytes(bytes[1], bytes[2])) {
            (Some(mode), Some(error)) => Some(Status { mode, error }),
            _ => None,
        }
    }

    /// Decoding undoes encoding, and an encoding has `SIZE` bytes.
    pub proof fn decode_encoded(self)
        ensures
            self.wire().len() == Self::SIZE,
            Self::of_wire(self.wire()) == Some(self),
    {
    }

    /// Only the encoding of a value decodes to it.
    pub proof fn encode_decoded(bytes: Seq<u8>)
        ensures
            Self::of_wire(bytes) matches Some(value) ==> value.wire() == bytes,
    {
        if let Some(value) = Self::of_wire(bytes) {
            assert(value.wire() =~= bytes);
        }
    }
}

/// The current that the regulator is asked to hold.
#[derive(Debug, Clone, Copy, PartialEq, Eq, Structural)]
pub struct Control {
    pub target: u16,
}

impl HeadlightCommand for Control {
    const ID: CommandID = Control::ID;
}

impl Control {
    /// The identifier that opens a frame of this command.
    pub const ID: CommandID = 0xaa;

    /// Number of bytes of the payload.
    pub const SIZE: usize = 2;

    pub open spec fn wire(self) -> Seq<u8> {
        u16_wire(self.target)
    }

    pub open spec fn of_wire(bytes: Seq<u8>) -> Option<Self> {
        if bytes.len() != 2 {
            None
        } else {
            Some(Control { target: u16_of(bytes[0], bytes[1]) })
        }
    }

    pub fn serialize(&self) -> (bytes: Vec<u8>)
        ensures
            bytes@ == self.wire(),
    {
        let mut bytes: Vec<u8> = Vec::new();
        put_u16(&mut bytes, self.target);
        assert(bytes@ =~= self.wire());
        bytes
    }

    pub fn deserialize(bytes: &[u8]) -> (r: Option<Self>)
        ensures
            r == Self::of_wire(bytes@),
    {
        if bytes.len() != 2 {
            return None;
        }
        Some(Control { target: get_u16(bytes, 0) })
    }

    /// Decoding undoes encoding, and an encoding has `SIZE` bytes.
    pub proof fn decode_encoded(self)
        ensures
            self.wire().len() == Self::SIZE,
            Self::of_wire(self.wire()) == Some(self),
    {
    }

    /// Only the encoding of a value decodes to it.
    pub proof fn encode_decoded(bytes: Seq<u8>)
        ensures
            Self::of_wire(bytes) matches Some(value) ==> value.wire() == bytes,
    {
        if let Some(value) = Self::of_wire(bytes) {
            assert(value.wire() =~= bytes);
        }
    }
}

/// A snapshot of the regulation loop.
#[derive(Debug, Clone, Copy, PartialEq, Eq, Structural)]
pub struct Monitor {
    /// Duty cycle of the regulation PWM.
    pub duty: u16,
    /// Upper load current.
    pub upper_current: u16,
    /// Lower load current.
    pub lower_current: u16,
    /// Temperature of the output stage.
    pub temperature: u16,
}

impl HeadlightCommand for Monitor {
    const ID: CommandID = Monitor::ID;
}

impl Monitor {
    /// The identifier that opens a frame of this command.
    pub const ID: CommandID = 0xab;

    /// Number of bytes of the payload.
    pub const SIZE: usize = 8;

    pub open spec fn wire(self) -> Seq<u8> {
        u16_wire(self.duty) + u16_wire(self.upper_current) + u16_wire(self.lower_current)
            + u16_wire(self.temperature)
    }

    pub open spec fn of_wire(bytes: Seq<u8>) -> Option<Self> {
        if bytes.len() != 8 {
            None
        } else {
            Some(
                Monitor {
                    duty: u16_of(bytes[0], bytes[1]),
                    upper_current: u16_of(bytes[2], bytes[3]),
                    lower_current: u16_of(bytes[4], bytes[5]),
                    temperature: u16_of(bytes[6], bytes[7]),
                },
            )
        }
    }

    pub fn serialize(&self) -> (bytes: Vec<u8>)
        ensures
            bytes@ == self.wire(),
    {
        let mut bytes: Vec<u8> = Vec::new();
        put_u16(&mut bytes, self.duty);
        put_u16(&mut bytes, self.upper_current);
        put_u16(&mut bytes, self.lower_current);
        put_u16(&mut bytes, self.temperature);
        assert(bytes@ =~= self.wire());
        bytes
    }

    pub fn deserialize(bytes: &[u8]) -> (r: Option<Self>)
        ensures
            r == Self::of_wire(bytes@),
    {
        if bytes.len() != 8 {
            return None;
        }
        Some(
            Monitor {
                duty: get_u16(bytes, 0),
                upper_current: get_u16(bytes, 2),
                lower_current: get_u16(bytes, 4),
                temperature: get_u16(bytes, 6),
            },
        )
    }

    /// Decoding undoes encoding, and an encoding has `SIZE` bytes.
    pub proof fn decode_encoded(self)
        ensures
            self.wire().len() == Self::SIZE,
            Self::of_wire(self.wire()) == Some(self),
    {
    }

    /// Only the encoding of a value decodes to it.
    pub proof fn encode_decoded(bytes: Seq<u8>)
        ensures
            Self::of_wire(bytes) matches Some(value) ==> value.wire() == bytes,
    {
        if let Some(value) = Self::of_wire(bytes) {
            assert(value.wire() =~= bytes);
        }
    }
}

/// The tunable configuration that the device keeps in non-volatile memory.
#[derive(Debug, Clone, Copy, PartialEq, Eq, Structural)]
pub struct Config {
    /// Whether regulation starts at boot.
    pub enabled: bool,
    /// The control in force before any control command arrives.
    pub startup_control: Control,
    /// The gain of the regulation feedback loop.
    pub gain: u8,
    /// Frequency of the PWM signal that drives the output stage.
    pub pwm_freq: u16,
    /// Highest target current.
    pub max_target_current: u16,
    /// Highest current that the load may carry.
    pub abs_max_load_current: u16,
    /// Temperature, in degrees Celsius, from which the target is derated.
    pub throttle_start: u8,
    /// Temperature, in degrees Celsius, at which the derated target reaches zero.
    pub throttle_stop: u8,
}

impl HeadlightCommand for Config {
    const ID: CommandID = Config::ID;
}

impl Default for Config {
    fn default() -> (config: Self)
        ensures
            config == Config::factory(),
    {
        Config {
            enabled: false,
            startup_control: Control { target: 0 },
            gain: 1,
            pwm_freq: 300,
            max_target_current: 50,
            abs_max_load_current: 100,
            throttle_start: 50,
            throttle_stop: 60,
        }
    }
}

impl Config {
    /// The identifier that opens a frame of this command.
    pub const ID: CommandID = 0xac;

    /// Number of bytes of the payload.
    pub const SIZE: usize = 12;

    /// The configuration that is compiled in.
    pub open spec fn factory() -> Self {
        Config {
            enabled: false,
            startup_control: Control { target: 0 },
            gain: 1,
            pwm_freq: 300,
            max_target_current: 50,
            abs_max_load_current: 100,
            throttle_start: 50,
            throttle_stop: 60,
        }
    }

    pub open spec fn wire(self) -> Seq<u8> {
        seq![bool_wire(self.enabled)] + self.startup_control.wire() + seq![self.gain] + u16_wire(
            self.pwm_freq,
        ) + u16_wire(self.max_target_current) + u16_wire(self.abs_max_load_current)
            + seq![self.throttle_start, self.throttle_stop]
    }

    pub open spec fn of_wire(bytes: Seq<u8>) -> Option<Self> {
        if bytes.len() != 12 {
            None
        } else {
            match bool_of(bytes[0]) {
                Some(enabled) => Some(
                    Config {
                        enabled,
                        startup_control: Control { target: u16_of(bytes[1], bytes[2]) },
                        gain: bytes[3],
                        pwm_freq: u16_of(bytes[4], bytes[5]),
                        max_target_current: u16_of(bytes[6], bytes[7]),
                        abs_max_load_current: u16_of(bytes[8], bytes[9]),
                        throttle_start: bytes[10],
                        throttle_stop: bytes[11],
                    },
                ),
                None => None,
            }
        }
    }

    pub fn serialize(&self) -> (bytes: Vec<u8>)
        ensures
            bytes@ == self.wire(),
    {
        let mut bytes: Vec<u8> = Vec::new();
        bytes.push(if self.enabled { 1 } else { 0 });
        put_u16(&mut bytes, self.startup_control.target);
        bytes.push(self.gain);
        put_u16(&mut bytes, self.pwm_freq);
        put_u16(&mut bytes, self.max_target_current);
        put_u16(&mut bytes, self.abs_max_load_current);
        bytes.push(self.throttle_start);
        bytes.push(self.throttle_stop);
        assert(bytes@ =~= self.wire());
        bytes
    }

    pub fn deserialize(bytes: &[u8]) -> (r: Option<Self>)
        ensures
            r == Self::of_wire(bytes@),
    {
        if bytes.len() != 12 {
            return None;
        }
        let enabled = if bytes[0] == 0 {
            false
        } else if bytes[0] == 1 {
            true
        } else {
            return None;
        };
        Some(
            Config {
                enabled,
                startup_control: Control { target: get_u16(bytes, 1) },
                gain: bytes[3],
                pwm_freq: get_u16(bytes, 4),
                max_target_current: get_u16(bytes, 6),
                abs_max_load_current: get_u16(bytes, 8),
                throttle_start: bytes[10],
                throttle_stop: bytes[11],
            },
        )
    }

    /// Decoding undoes encoding, and an encoding has `SIZE` bytes.
    pub proof fn decode_encoded(self)
        ensures
            self.wire().len() == Self::SIZE,
            Self::of_wire(self.wire()) == Some(self),
    {
    }

    /// Only the encoding of a value decodes to it.
    pub proof fn encode_decoded(bytes: Seq<u8>)
        ensures
            Self::of_wire(bytes) matches Some(value) ==> value.wire() == bytes,
    {
        if let Some(value) = Self::of_wire(bytes) {
            assert(value.wire() =~= bytes);
        }
    }
}

/// Restarts the device.
#[derive(Debug, Clone, Copy, PartialEq, Eq, Structural)]
pub enum Reset {
    /// Restart with the stored configuration.
    Now,
    /// Restart with the compiled-in configuration.
    Factory,
}

impl HeadlightCommand for Reset {
    const ID: CommandID = Reset::ID;
}

impl Reset {
    /// The identifier that opens a frame of this command.
    pub const ID: CommandID = 0xff;

    /// Number of bytes of the payload.
    pub const SIZE: usize = 1;

    pub open spec fn wire(self) -> Seq<u8> {
        seq![
            match self {
                Reset::Now => 0x10u8,
                Reset::Factory => 0x11u8,
            },
        ]
    }

    pub open spec fn of_wire(bytes: Seq<u8>) -> Option<Self> {
        if bytes.len() != 1 {
            None
        } else if bytes[0] == 0x10 {
            Some(Reset::Now)
        } else if bytes[0] == 0x11 {
            Some(Reset::Factory)
        } else {
            None
        }
    }

    pub fn serialize(&self) -> (bytes: Vec<u8>)
        ensures
            bytes@ == self.wire(),
    {
        let byte: u8 = match self {
            Reset::Now => 0x10,
            Reset::Factory => 0x11,
        };
        let bytes = vec![byte];
        assert(bytes@ =~= self.wire());
        bytes
    }

    pub fn deserialize(bytes: &[u8]) -> (r: Option<Self>)
        ensures
            r == Self::of_wire(bytes@),
    {
        if bytes.len() != 1 {
            return None;
        }
        match bytes[0] {
            0x10 => Some(Reset::Now),
            0x11 => Some(Reset::Factory),
            _ => None,
        }
    }

    /// Decoding undoes encoding, and an encoding has `SIZE` bytes.
    pub proof fn decode_encoded(self)
        ensures
            self.wire().len() == Self::SIZE,
            Self::of_wire(self.wire()) == Some(self),
    {
    }

    /// Only the encoding of a value decodes to it.
    pub proof fn encode_decoded(bytes: Seq<u8>)
        ensures
            Self::of_wire(bytes) matches Some(value) ==> value.wire() == bytes,
    {
        if let Some(value) = Self::of_wire(bytes) {
            assert(value.wire() =~= bytes);
        }
    }
}

/// What a device is and what its platform allows. The bridge publishes it; it
/// never travels in a frame.
#[derive(Debug, Clone, Copy, PartialEq, Eq, Structural)]
pub struct Properties {
    /// Device version.
    pub version: Version,
    /// Absolute maximum current, in mA.
    pub abs_max_ma: u16,
    /// Absolute maximum temperature, as a thermistor sample.
    pub abs_max_temp: u16,
    /// Lowest PWM frequency that can be configured.
    pub min_pwm_freq: u16,
    /// Highest PWM frequency that can be configured.
    pub max_pwm_freq: u16,
    /// Largest error of a current measurement, in mA.
    pub max_adc_error: u16,
}

impl Properties {
    /// Number of bytes of the encoding.
    pub const SIZE: usize = 12;

    pub open spec fn wire(self) -> Seq<u8> {
        seq![self.version.hw.wire(), self.version.fw.wire()] + u16_wire(self.abs_max_ma)
            + u16_wire(self.abs_max_temp) + u16_wire(self.min_pwm_freq) + u16_wire(
            self.max_pwm_freq,
        ) + u16_wire(self.max_adc_error)
    }

    pub open spec fn of_wire(bytes: Seq<u8>) -> Option<Self> {
        if bytes.len() != 12 {
            None
        } else {
            match (Hardware::of_wire(bytes[0]), Firmware::of_wire(bytes[1])) {
                (Some(hw), Some(fw)) => Some(
                    Properties {
                        version: Version { hw, fw },
                        abs_max_ma: u16_of(bytes[2], bytes[3]),
                        abs_max_temp: u16_of(bytes[4], bytes[5]),
                        min_pwm_freq: u16_of(bytes[6], bytes[7]),
                        max_pwm_freq: u16_of(bytes[8], bytes[9]),
                        max_adc_error: u16_of(bytes[10], bytes[11]),
                    },
                ),
                _ => None,
            }
        }
    }

    pub fn serialize(&self) -> (bytes: Vec<u8>)
        ensures
            bytes@ == self.wire(),
    {
        let mut bytes: Vec<u8> = Vec::new();
        bytes.push(self.version.hw.to_byte());
        bytes.push(self.version.fw.to_byte());
        put_u16(&mut bytes, self.abs_max_ma);
        put_u16(&mut bytes, self.abs_max_temp);
        put_u16(&mut bytes, self.min_pwm_freq);
        put_u16(&mut bytes, self.max_pwm_freq);
        put_u16(&mut bytes, self.max_adc_error);
        assert(bytes@ =~= self.wire());
        bytes
    }

    pub fn deserialize(bytes: &[u8]) -> (r: Option<Self>)
        ensures
            r == Self::of_wire(bytes@),
    {
        if bytes.len() != 12 {
            return None;
        }
        match (Hardware::from_byte(bytes[0]), Firmware::from_byte(bytes[1])) {
            (Some(hw), Some(fw)) => Some(
                Properties {
                    version: Version { hw, fw },
                    abs_max_ma: get_u16(bytes, 2),
                    abs_max_temp: get_u16(bytes, 4),
                    min_pwm_freq: get_u16(bytes, 6),
                    max_pwm_freq: get_u16(bytes, 8),
                    max_adc_error: get_u16(bytes, 10),
                },
            ),
            _ => None,
        }
    }

    /// Decoding undoes encoding, and an encoding has `SIZE` bytes.
    pub proof fn decode_encoded(self)
        ensures
            self.wire().len() == Self::SIZE,
            Self::of_wire(self.wire()) == Some(self),
    {
    }

    /// Only the encoding of a value decodes to it.
    pub proof fn encode_decoded(bytes: Seq<u8>)
        ensures
            Self::of_wire(bytes) matches Some(value) ==> value.wire() == bytes,
    {
        if let Some(value) = Self::of_wire(bytes) {
            assert(value.wire() =~= bytes);
        }
    }
}

} // verus!
