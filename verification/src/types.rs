//! Identifiers, modes and error kinds that the commands carry.

use vstd::prelude::*;

verus! {

/// The checksum of a frame.
pub type CRCRepr = u8;

/// The identifier that opens a frame and names its command.
pub type CommandID = u8;

/// The two bytes that precede every payload on the wire.
#[derive(Debug, Clone, Copy, PartialEq, Eq, Structural)]
pub struct CommandHeader {
    pub id: CommandID,
    pub crc: CRCRepr,
}

impl CommandHeader {
    /// Number of bytes of a header on the wire.
    pub const SIZE: usize = 2;

    /// The header on the wire: identifier, then checksum.
    pub open spec fn wire(self) -> Seq<u8> {
        seq![self.id, self.crc]
    }

    pub fn serialize(&self) -> (bytes: Vec<u8>)
        ensures
            bytes@ == self.wire(),
    {
        vec![self.id, self.crc]
    }
}

/// The configuration bound that a rejected configuration breaks.
#[derive(Debug, Clone, Copy, PartialEq, Eq, Structural)]
pub enum ConfigError {
    Gain,
    PWMFreq,
    MaxTarget,
    StartupTarget,
    ThrottleBounds,
}

impl ConfigError {
    pub open spec fn wire(self) -> u8 {
        match self {
            ConfigError::Gain => 0,
            ConfigError::PWMFreq => 1,
            ConfigError::MaxTarget => 2,
            ConfigError::StartupTarget => 3,
            ConfigError::ThrottleBounds => 4,
        }
    }

    pub open spec fn of_wire(byte: u8) -> Option<Self> {
        if byte == 0 {
            Some(ConfigError::Gain)
        } else if byte == 1 {
            Some(ConfigError::PWMFreq)
        } else if byte == 2 {
            Some(ConfigError::MaxTarget)
        } else if byte == 3 {
            Some(ConfigError::StartupTarget)
        } else if byte == 4 {
            Some(ConfigError::ThrottleBounds)
        } else {
            None
        }
    }

    pub fn to_byte(self) -> (byte: u8)
        ensures
            byte == self.wire(),
    {
        match self {
            ConfigError::Gain => 0,
            ConfigError::PWMFreq => 1,
            ConfigError::MaxTarget => 2,
            ConfigError::StartupTarget => 3,
            ConfigError::ThrottleBounds => 4,
        }
    }

    pub fn from_byte(byte: u8) -> (r: Option<Self>)
        ensures
            r == Self::of_wire(byte),
    {
        match byte {
            0 => Some(ConfigError::Gain),
            1 => Some(ConfigError::PWMFreq),
            2 => Some(ConfigError::MaxTarget),
            3 => Some(ConfigError::StartupTarget),
            4 => Some(ConfigError::ThrottleBounds),
            _ => None,
        }
    }
}

/// A failure that stops regulation until the device is reset.
#[derive(Debug, Clone, Copy, PartialEq, Eq, Structural)]
pub enum RuntimeError {
    Flash,
    Overcurrent,
    Overtemperature,
    InvariantLoad,
    ArithmeticError,
}

impl RuntimeError {
    pub open spec fn wire(self) -> u8 {
        match self {
            RuntimeError::Flash => 0x10,
            RuntimeError::Overcurrent => 0x20,
            RuntimeError::Overtemperature => 0x21,
            RuntimeError::InvariantLoad => 0x22,
            RuntimeError::ArithmeticError => 0x23,
        }
    }

    pub open spec fn of_wire(byte: u8) -> Option<Self> {
        if byte == 0x10 {
            Some(RuntimeError::Flash)
        } else if byte == 0x20 {
            Some(RuntimeError::Overcurrent)
        } else if byte == 0x21 {
            Some(RuntimeError::Overtemperature)
        } else if byte == 0x22 {
            Some(RuntimeError::InvariantLoad)
        } else if byte == 0x23 {
            Some(RuntimeError::ArithmeticError)
        } else {
            None
        }
    }

    pub fn to_byte(self) -> (byte: u8)
        ensures
            byte == self.wire(),
    {
        match self {
            RuntimeError::Flash => 0x10,
            RuntimeError::Overcurrent => 0x20,
            RuntimeError::Overtemperature => 0x21,
            RuntimeError::InvariantLoad => 0x22,
            RuntimeError::ArithmeticError => 0x23,
        }
    }

    pub fn from_byte(byte: u8) -> (r: Option<Self>)
        ensures
            r == Self::of_wire(byte),
    {
        match byte {
            0x10 => Some(RuntimeError::Flash),
            0x20 => Some(RuntimeError::Overcurrent),
            0x21 => Some(RuntimeError::Overtemperature),
            0x22 => Some(RuntimeError::InvariantLoad),
            0x23 => Some(RuntimeError::ArithmeticError),
            _ => None,
        }
    }
}

/// The error that a status reports: none, a rejected configuration, or a failure
/// at run time.
#[allow(inconsistent_fields)]
#[derive(Debug, Clone, Copy, PartialEq, Eq, Structural)]
pub enum HeadlightError {
    NoError,
    Config { e: ConfigError },
    Runtime { e: RuntimeError },
}

impl HeadlightError {
    /// Number of bytes on the wire: a tag and the byte of the inner error.
    pub const SIZE: usize = 2;

    /// Tag, then the inner error's byte, which is 0 where there is no error.
    pub open spec fn wire(self) -> Seq<u8> {
        match self {
            HeadlightError::NoError => seq![0x00u8, 0x00u8],
            HeadlightError::Config { e } => seq![0x20u8, e.wire()],
            HeadlightError::Runtime { e } => seq![0x30u8, e.wire()],
        }
    }

    pub open spec fn of_wire(tag: u8, inner: u8) -> Option<Self> {
        if tag == 0x00 {
            if inner == 0 {
                Some(HeadlightError::NoError)
            } else {
                None
            }
        } else if tag == 0x20 {
            match ConfigError::of_wire(inner) {
                Some(e) => Some(HeadlightError::Config { e }),
                None => None,
            }
        } else if tag == 0x30 {
            match RuntimeError::of_wire(inner) {
                Some(e) => Some(HeadlightError::Runtime { e }),
                None => None,
            }
        } else {
            None
        }
    }

    pub fn to_bytes(self) -> (bytes: (u8, u8))
        ensures
            seq![bytes.0, bytes.1] == self.wire(),
    {
        let bytes = match self {
            HeadlightError::NoError => (0x00u8, 0x00u8),
            HeadlightError::Config { e } => (0x20u8, e.to_byte()),
            HeadlightError::Runtime { e } => (0x30u8, e.to_byte()),
        };
        assert(seq![bytes.0, bytes.1] =~= self.wire());
        bytes
    }

    pub fn from_bytes(tag: u8, inner: u8) -> (r: Option<Self>)
        ensures
            r == Self::of_wire(tag, inner),
    {
        match tag {
            0x00 => if inner == 0 {
                Some(HeadlightError::NoError)
            } else {
                None
            },
            0x20 => match ConfigError::from_byte(inner) {
                Some(e) => Some(HeadlightError::Config { e }),
                None => None,
            },
            0x30 => match RuntimeError::from_byte(inner) {
                Some(e) => Some(HeadlightError::Runtime { e }),
                None => None,
            },
            _ => None,
        }
    }
}

impl Default for HeadlightError {
    fn default() -> (e: Self)
        ensures
            e == HeadlightError::NoError,
    {
        HeadlightError::NoError
    }
}

impl From<ConfigError> for HeadlightError {
    fn from(value: ConfigError) -> (e: Self) {
        HeadlightError::Config { e: value }
    }
}

impl vstd::std_specs::convert::FromSpecImpl<ConfigError> for HeadlightError {
    open spec fn obeys_from_spec() -> bool {
        true
    }

    open spec fn from_spec(value: ConfigError) -> Self {
        HeadlightError::Config { e: value }
    }
}

impl From<RuntimeError> for HeadlightError {
    fn from(value: RuntimeError) -> (e: Self) {
        HeadlightError::Runtime { e: value }
    }
}

impl vstd::std_specs::convert::FromSpecImpl<RuntimeError> for HeadlightError {
    open spec fn obeys_from_spec() -> bool {
        true
    }

    open spec fn from_spec(value: RuntimeError) -> Self {
        HeadlightError::Runtime { e: value }
    }
}

/// What the regulator is doing.
#[derive(Debug, Clone, Copy, PartialEq, Eq, Structural)]
pub enum Mode {
    Idle,
    Running,
    Throttling,
    Fault,
}

impl Mode {
    pub open spec fn wire(self) -> u8 {
        match self {
            Mode::Idle => 0xf0,
            Mode::Running => 0xfa,
            Mode::Throttling => 0xf2,
            Mode::Fault => 0xf3,
        }
    }

    pub open spec fn of_wire(byte: u8) -> Option<Self> {
        if byte == 0xf0 {
            Some(Mode::Idle)
        } else if byte == 0xfa {
            Some(Mode::Running)
        } else if byte == 0xf2 {
            Some(Mode::Throttling)
        } else if byte == 0xf3 {
            Some(Mode::Fault)
        } else {
            None
        }
    }

    pub fn to_byte(self) -> (byte: u8)
        ensures
            byte == self.wire(),
    {
        match self {
            Mode::Idle => 0xf0,
            Mode::Running => 0xfa,
            Mode::Throttling => 0xf2,
            Mode::Fault => 0xf3,
        }
    }

    pub fn from_byte(byte: u8) -> (r: Option<Self>)
        ensures
            r == Self::of_wire(byte),
    {
        match byte {
            0xf0 => Some(Mode::Idle),
            0xfa => Some(Mode::Running),
            0xf2 => Some(Mode::Throttling),
            0xf3 => Some(Mode::Fault),
            _ => None,
        }
    }
}

impl Default for Mode {
    fn default() -> (mode: Self)
        ensures
            mode == Mode::Idle,
    {
        Mode::Idle
    }
}

/// Revision of the board.
#[derive(Debug, Clone, Copy, PartialEq, Eq, Structural)]
pub enum Hardware {
    V2Rev0,
    V2Rev1,
    V2Rev3,
}

impl Hardware {
    pub open spec fn wire(self) -> u8 {
        match self {
            Hardware::V2Rev0 => 0,
            Hardware::V2Rev1 => 1,
            Hardware::V2Rev3 => 2,
        }
    }

    pub open spec fn of_wire(byte: u8) -> Option<Self> {
        if byte == 0 {
            Some(Hardware::V2Rev0)
        } else if byte == 1 {
            Some(Hardware::V2Rev1)
        } else if byte == 2 {
            Some(Hardware::V2Rev3)
        } else {
            None
        }
    }

    pub fn to_byte(self) -> (byte: u8)
        ensures
            byte == self.wire(),
    {
        match self {
            Hardware::V2Rev0 => 0,
            Hardware::V2Rev1 => 1,
            Hardware::V2Rev3 => 2,
        }
    }

    pub fn from_byte(byte: u8) -> (r: Option<Self>)
        ensures
            r == Self::of_wire(byte),
    {
        match byte {
            0 => Some(Hardware::V2Rev0),
            1 => Some(Hardware::V2Rev1),
            2 => Some(Hardware::V2Rev3),
            _ => None,
        }
    }
}

/// Release of the firmware.
#[derive(Debug, Clone, Copy, PartialEq, Eq, Structural)]
pub enum Firmware {
    V0P1,
}

impl Firmware {
    pub open spec fn wire(self) -> u8 {
        0
    }

    pub open spec fn of_wire(byte: u8) -> Option<Self> {
        if byte == 0 {
            Some(Firmware::V0P1)
        } else {
            None
        }
    }

    pub fn to_byte(self) -> (byte: u8)
        ensures
            byte == self.wire(),
    {
        0
    }

    pub fn from_byte(byte: u8) -> (r: Option<Self>)
        ensures
            r == Self::of_wire(byte),
    {
        match byte {
            0 => Some(Firmware::V0P1),
            _ => None,
        }
    }
}

/// Board revision and firmware release of a device.
#[derive(Debug, Clone, Copy, PartialEq, Eq, Structural)]
pub struct Version {
    pub hw: Hardware,
    pub fw: Firmware,
}

} // verus!
