//! The direct command set: brightness, controller gains and PWM frequency, set one
//! by one, and the two bundles that the wireless bridge exchanges in it.

use crate::commands::HeadlightCommand;
use crate::reader::ParseCommandBundle;
use crate::types::CommandID;
use crate::wire::{get_u16, put_u16, u16_of, u16_wire};
use vstd::prelude::*;

verus! {

/// The state of the lamp, as its raw byte.
pub type StateData = u8;

/// The error of the lamp, as its raw byte.
pub type ErrorData = u8;

/// Asks the lamp for one of its values.
#[derive(Debug, Clone, Copy, PartialEq, Eq, Structural)]
pub enum RequestCommand {
    Noop,
    Status,
    Brightness,
    Monitor,
    PID,
}

impl HeadlightCommand for RequestCommand {
    const ID: CommandID = RequestCommand::ID;
}

impl RequestCommand {
    /// The identifier that opens a frame of this command.
    pub const ID: CommandID = 0x10;

    /// Number of bytes of the payload.
    pub const SIZE: usize = 1;

    pub open spec fn wire(self) -> Seq<u8> {
        seq![
            match self {
                RequestCommand::Noop => 0x00u8,
                RequestCommand::Status => 0x1fu8,
                RequestCommand::Brightness => 0xaau8,
                RequestCommand::Monitor => 0xabu8,
                RequestCommand::PID => 0xacu8,
            },
        ]
    }

    pub open spec fn of_wire(bytes: Seq<u8>) -> Option<Self> {
        if bytes.len() != 1 {
            None
        } else if bytes[0] == 0x00 {
            Some(RequestCommand::Noop)
        } else if bytes[0] == 0x1f {
            Some(RequestCommand::Status)
        } else if bytes[0] == 0xaa {
            Some(RequestCommand::Brightness)
        } else if bytes[0] == 0xab {
            Some(RequestCommand::Monitor)
        } else if bytes[0] == 0xac {
            Some(RequestCommand::PID)
        } else {
            None
        }
    }

    pub fn serialize(&self) -> (bytes: Vec<u8>)
        ensures
            bytes@ == self.wire(),
    {
        let byte: u8 = match self {
            RequestCommand::Noop => 0x00,
            RequestCommand::Status => 0x1f,
            RequestCommand::Brightness => 0xaa,
            RequestCommand::Monitor => 0xab,
            RequestCommand::PID => 0xac,
        };
        let bytes = vec![byte];
        assert(bytes@ =~= self.wire());
        bytes
    }

    pub fn deserialize(bytes: &[u8]) -> (r: Option<Self>)
        ensures
            r == Self::of_wire(bytes@),
    {
        if bytes.len() != 1 {
            return None;
        }
        match bytes[0] {
            0x00 => Some(RequestCommand::Noop),
            0x1f => Some(RequestCommand::Status),
            0xaa => Some(RequestCommand::Brightness),
            0xab => Some(RequestCommand::Monitor),
            0xac => Some(RequestCommand::PID),
            _ => None,
        }
    }

    /// Decoding undoes encoding, and an encoding has `SIZE` bytes.
    pub proof fn decode_encoded(self)
        ensures
            self.wire().len() == Self::SIZE,
            Self::of_wire(self.wire()) == Some(self),
    {
    }

    /// Only the encoding of a value decodes to it.
    pub proof fn encode_decoded(bytes: Seq<u8>)
        ensures
            Self::of_wire(bytes) matches Some(value) ==> value.wire() == bytes,
    {
        if let Some(value) = Self::of_wire(bytes) {
            assert(value.wire() =~= bytes);
        }
    }
}

/// State and error of the lamp.
#[derive(Debug, Clone, Copy, PartialEq, Eq, Structural)]
pub struct StatusCommand {
    pub state: StateData,
    pub error: ErrorData,
}

impl HeadlightCommand for StatusCommand {
    const ID: CommandID = StatusCommand::ID;
}

impl StatusCommand {
    /// The identifier that opens a frame of this command.
    pub const ID: CommandID = 0x1f;

    /// Number of bytes of the payload.
    pub const SIZE: usize = 2;

    pub open spec fn wire(self) -> Seq<u8> {
        seq![self.state, self.error]
    }

    pub open spec fn of_wire(bytes: Seq<u8>) -> Option<Self> {
        if bytes.len() != 2 {
            None
        } else {
            Some(StatusCommand { state: bytes[0], error: bytes[1] })
        }
    }

    pub fn serialize(&self) -> (bytes: Vec<u8>)
        ensures
            bytes@ == self.wire(),
    {
        vec![self.state, self.error]
    }

    pub fn deserialize(bytes: &[u8]) -> (r: Option<Self>)
        ensures
            r == Self::of_wire(bytes@),
    {
        if bytes.len() != 2 {
            return None;
        }
        Some(StatusCommand { state: bytes[0], error: bytes[1] })
    }

    /// Decoding undoes encoding, and an encoding has `SIZE` bytes.
    pub proof fn decode_encoded(self)
        ensures
            self.wire().len() == Self::SIZE,
            Self::of_wire(self.wire()) == Some(self),
    {
    }

    /// Only the encoding of a value decodes to it.
    pub proof fn encode_decoded(bytes: Seq<u8>)
        ensures
            Self::of_wire(bytes) matches Some(value) ==> value.wire() == bytes,
    {
        if let Some(value) = Self::of_wire(bytes) {
            assert(value.wire() =~= bytes);
        }
    }
}

/// The brightness of the lamp.
#[derive(Debug, Clone, Copy, PartialEq, Eq, Structural)]
pub struct BrightnessCommand {
    pub brightness: u8,
}

impl HeadlightCommand for BrightnessCommand {
    const ID: CommandID = BrightnessCommand::ID;
}

impl BrightnessCommand {
    /// The identifier that opens a frame of this command.
    pub const ID: CommandID = 0xaa;

    /// Number of bytes of the payload.
    pub const SIZE: usize = 1;

    pub open spec fn wire(self) -> Seq<u8> {
        seq![self.brightness]
    }

    pub open spec fn of_wire(bytes: Seq<u8>) -> Option<Self> {
        if bytes.len() != 1 {
            None
        } else {
            Some(BrightnessCommand { brightness: bytes[0] })
        }
    }

    pub fn serialize(&self) -> (bytes: Vec<u8>)
        ensures
            bytes@ == self.wire(),
    {
        vec![self.brightness]
    }

    pub fn deserialize(bytes: &[u8]) -> (r: Option<Self>)
        ensures
            r == Self::of_wire(bytes@),
    {
        if bytes.len() != 1 {
            return None;
        }
        Some(BrightnessCommand { brightness: bytes[0] })
    }

    /// Decoding undoes encoding, and an encoding has `SIZE` bytes.
    pub proof fn decode_encoded(self)
        ensures
            self.wire().len() == Self::SIZE,
            Self::of_wire(self.wire()) == Some(self),
    {
    }

    /// Only the encoding of a value decodes to it.
    pub proof fn encode_decoded(bytes: Seq<u8>)
        ensures
            Self::of_wire(bytes) matches Some(value) ==> value.wire() == bytes,
    {
        if let Some(value) = Self::of_wire(bytes) {
            assert(value.wire() =~= bytes);
        }
    }
}

/// Duty cycle, current and temperature of the lamp.
#[derive(Debug, Clone, Copy, PartialEq, Eq, Structural)]
pub struct MonitorCommand {
    pub duty: u8,
    pub current: u8,
    pub temperature: u8,
}

impl HeadlightCommand for MonitorCommand {
    const ID: CommandID = MonitorCommand::ID;
}

impl MonitorCommand {
    /// The identifier that opens a frame of this command.
    pub const ID: CommandID = 0xab;

    /// Number of bytes of the payload.
    pub const SIZE: usize = 3;

    pub open spec fn wire(self) -> Seq<u8> {
        seq![self.duty, self.current, self.temperature]
    }

    pub open spec fn of_wire(bytes: Seq<u8>) -> Option<Self> {
        if bytes.len() != 3 {
            None
        } else {
            Some(MonitorCommand { duty: bytes[0], current: bytes[1], temperature: bytes[2] })
        }
    }

    pub fn serialize(&self) -> (bytes: Vec<u8>)
        ensures
            bytes@ == self.wire(),
    {
        vec![self.duty, self.current, self.temperature]
    }

    pub fn deserialize(bytes: &[u8]) -> (r: Option<Self>)
        ensures
            r == Self::of_wire(bytes@),
    {
        if bytes.len() != 3 {
            return None;
        }
        Some(MonitorCommand { duty: bytes[0], current: bytes[1], temperature: bytes[2] })
    }

    /// Decoding undoes encoding, and an encoding has `SIZE` bytes.
    pub proof fn decode_encoded(self)
        ensures
            self.wire().len() == Self::SIZE,
            Self::of_wire(self.wire()) == Some(self),
    {
    }

    /// Only the encoding of a value decodes to it.
    pub proof fn encode_decoded(bytes: Seq<u8>)
        ensures
            Self::of_wire(bytes) matches Some(value) ==> value.wire() == bytes,
    {
        if let Some(value) = Self::of_wire(bytes) {
            assert(value.wire() =~= bytes);
        }
    }
}

/// The three gains of the controller.
#[derive(Debug, Clone, Copy, PartialEq, Eq, Structural)]
pub struct PIDCommand {
    pub k_p: u8,
    pub k_i: u8,
    pub k_d: u8,
}

impl HeadlightCommand for PIDCommand {
    const ID: CommandID = PIDCommand::ID;
}

impl PIDCommand {
    /// The identifier that opens a frame of this command.
    pub const ID: CommandID = 0xac;

    /// Number of bytes of the payload.
    pub const SIZE: usize = 3;

    pub open spec fn wire(self) -> Seq<u8> {
        seq![self.k_p, self.k_i, self.k_d]
    }

    pub open spec fn of_wire(bytes: Seq<u8>) -> Option<Self> {
        if bytes.len() != 3 {
            None
        } else {
            Some(PIDCommand { k_p: bytes[0], k_i: bytes[1], k_d: bytes[2] })
        }
    }

    pub fn serialize(&self) -> (bytes: Vec<u8>)
        ensures
            bytes@ == self.wire(),
    {
        vec![self.k_p, self.k_i, self.k_d]
    }

    pub fn deserialize(bytes: &[u8]) -> (r: Option<Self>)
        ensures
            r == Self::of_wire(bytes@),
    {
        if bytes.len() != 3 {
            return None;
        }
        Some(PIDCommand { k_p: bytes[0], k_i: bytes[1], k_d: bytes[2] })
    }

    /// Decoding undoes encoding, and an encoding has `SIZE` bytes.
    pub proof fn decode_encoded(self)
        ensures
            self.wire().len() == Self::SIZE,
            Self::of_wire(self.wire()) == Some(self),
    {
    }

    /// Only the encoding of a value decodes to it.
    pub proof fn encode_decoded(bytes: Seq<u8>)
        ensures
            Self::of_wire(bytes) matches Some(value) ==> value.wire() == bytes,
    {
        if let Some(value) = Self::of_wire(bytes) {
            assert(value.wire() =~= bytes);
        }
    }
}

/// The frequency of the PWM signal.
#[derive(Debug, Clone, Copy, PartialEq, Eq, Structural)]
pub struct PWMCommand {
    pub freq: u16,
}

impl HeadlightCommand for PWMCommand {
    const ID: CommandID = PWMCommand::ID;
}

impl PWMCommand {
    /// The identifier that opens a frame of this command.
    pub const ID: CommandID = 0xad;

    /// Number of bytes of the payload.
    pub const SIZE: usize = 2;

    pub open spec fn wire(self) -> Seq<u8> {
        u16_wire(self.freq)
    }

    pub open spec fn of_wire(bytes: Seq<u8>) -> Option<Self> {
        if bytes.len() != 2 {
            None
        } else {
            Some(PWMCommand { freq: u16_of(bytes[0], bytes[1]) })
        }
    }

    pub fn serialize(&self) -> (bytes: Vec<u8>)
        ensures
            bytes@ == self.wire(),
    {
        let mut bytes: Vec<u8> = Vec::new();
        put_u16(&mut bytes, self.freq);
        assert(bytes@ =~= self.wire());
        bytes
    }

    pub fn deserialize(bytes: &[u8]) -> (r: Option<Self>)
        ensures
            r == Self::of_wire(bytes@),
    {
        if bytes.len() != 2 {
            return None;
        }
        Some(PWMCommand { freq: get_u16(bytes, 0) })
    }

    /// Decoding undoes encoding, and an encoding has `SIZE` bytes.
    pub proof fn decode_encoded(self)
        ensures
            self.wire().len() == Self::SIZE,
            Self::of_wire(self.wire()) == Some(self),
    {
    }

    /// Only the encoding of a value decodes to it.
    pub proof fn encode_decoded(bytes: Seq<u8>)
        ensures
            Self::of_wire(bytes) matches Some(value) ==> value.wire() == bytes,
    {
        if let Some(value) = Self::of_wire(bytes) {
            assert(value.wire() =~= bytes);
        }
    }
}

/// A command that the bridge takes from the lamp.
#[derive(Debug, Clone, Copy, PartialEq, Eq, Structural)]
pub enum ReceiveBundle {
    StatusCommand(StatusCommand),
    BrightnessCommand(BrightnessCommand),
    MonitorCommand(MonitorCommand),
    PIDCommand(PIDCommand),
}

/// A command that the bridge sends to the lamp.
#[derive(Debug, Clone, Copy, PartialEq, Eq, Structural)]
pub enum SendBundle {
    RequestCommand(RequestCommand),
    BrightnessCommand(BrightnessCommand),
    PIDCommand(PIDCommand),
}

impl ParseCommandBundle for ReceiveBundle {
    open spec fn payload_size(id: CommandID) -> Option<usize> {
        if id == StatusCommand::ID {
            Some(StatusCommand::SIZE)
        } else if id == BrightnessCommand::ID {
            Some(BrightnessCommand::SIZE)
        } else if id == MonitorCommand::ID {
            Some(MonitorCommand::SIZE)
        } else if id == PIDCommand::ID {
            Some(PIDCommand::SIZE)
        } else {
            None
        }
    }

    open spec fn decode(id: CommandID, payload: Seq<u8>) -> Option<Self> {
        if id == StatusCommand::ID {
            match StatusCommand::of_wire(payload) {
                Some(command) => Some(ReceiveBundle::StatusCommand(command)),
                None => None,
            }
        } else if id == BrightnessCommand::ID {
            match BrightnessCommand::of_wire(payload) {
                Some(command) => Some(ReceiveBundle::BrightnessCommand(command)),
                None => None,
            }
        } else if id == MonitorCommand::ID {
            match MonitorCommand::of_wire(payload) {
                Some(command) => Some(ReceiveBundle::MonitorCommand(command)),
                None => None,
            }
        } else if id == PIDCommand::ID {
            match PIDCommand::of_wire(payload) {
                Some(command) => Some(ReceiveBundle::PIDCommand(command)),
                None => None,
            }
        } else {
            None
        }
    }

    open spec fn id(&self) -> CommandID {
        match self {
            ReceiveBundle::StatusCommand(_) => StatusCommand::ID,
            ReceiveBundle::BrightnessCommand(_) => BrightnessCommand::ID,
            ReceiveBundle::MonitorCommand(_) => MonitorCommand::ID,
            ReceiveBundle::PIDCommand(_) => PIDCommand::ID,
        }
    }

    open spec fn payload(&self) -> Seq<u8> {
        match self {
            ReceiveBundle::StatusCommand(command) => command.wire(),
            ReceiveBundle::BrightnessCommand(command) => command.wire(),
            ReceiveBundle::MonitorCommand(command) => command.wire(),
            ReceiveBundle::PIDCommand(command) => command.wire(),
        }
    }

    proof fn payload_fits(id: CommandID) {
    }

    proof fn decode_encoded(&self) {
        match self {
            ReceiveBundle::StatusCommand(command) => command.decode_encoded(),
            ReceiveBundle::BrightnessCommand(command) => command.decode_encoded(),
            ReceiveBundle::MonitorCommand(command) => command.decode_encoded(),
            ReceiveBundle::PIDCommand(command) => command.decode_encoded(),
        }
    }

    proof fn encode_decoded(id: CommandID, payload: Seq<u8>) {
        StatusCommand::encode_decoded(payload);
        BrightnessCommand::encode_decoded(payload);
        MonitorCommand::encode_decoded(payload);
        PIDCommand::encode_decoded(payload);
    }

    fn size_of(id: CommandID) -> (size: Option<usize>) {
        if id == StatusCommand::ID {
            Some(StatusCommand::SIZE)
        } else if id == BrightnessCommand::ID {
            Some(BrightnessCommand::SIZE)
        } else if id == MonitorCommand::ID {
            Some(MonitorCommand::SIZE)
        } else if id == PIDCommand::ID {
            Some(PIDCommand::SIZE)
        } else {
            None
        }
    }

    fn parse(id: CommandID, payload: &[u8]) -> (command: Option<Self>) {
        if id == StatusCommand::ID {
            match StatusCommand::deserialize(payload) {
                Some(command) => Some(ReceiveBundle::StatusCommand(command)),
                None => None,
            }
        } else if id == BrightnessCommand::ID {
            match BrightnessCommand::deserialize(payload) {
                Some(command) => Some(ReceiveBundle::BrightnessCommand(command)),
                None => None,
            }
        } else if id == MonitorCommand::ID {
            match MonitorCommand::deserialize(payload) {
                Some(command) => Some(ReceiveBundle::MonitorCommand(command)),
                None => None,
            }
        } else if id == PIDCommand::ID {
            match PIDCommand::deserialize(payload) {
                Some(command) => Some(ReceiveBundle::PIDCommand(command)),
                None => None,
            }
        } else {
            None
        }
    }

    fn command_id(&self) -> (id: CommandID) {
        match self {
            ReceiveBundle::StatusCommand(_) => StatusCommand::ID,
            ReceiveBundle::BrightnessCommand(_) => BrightnessCommand::ID,
            ReceiveBundle::MonitorCommand(_) => MonitorCommand::ID,
            ReceiveBundle::PIDCommand(_) => PIDCommand::ID,
        }
    }

    fn serialize(&self) -> (payload: Vec<u8>) {
        match self {
            ReceiveBundle::StatusCommand(command) => command.serialize(),
            ReceiveBundle::BrightnessCommand(command) => command.serialize(),
            ReceiveBundle::MonitorCommand(command) => command.serialize(),
            ReceiveBundle::PIDCommand(command) => command.serialize(),
        }
    }
}

impl ParseCommandBundle for SendBundle {
    open spec fn payload_size(id: CommandID) -> Option<usize> {
        if id == RequestCommand::ID {
            Some(RequestCommand::SIZE)
        } else if id == BrightnessCommand::ID {
            Some(BrightnessCommand::SIZE)
        } else if id == PIDCommand::ID {
            Some(PIDCommand::SIZE)
        } else {
            None
        }
    }

    open spec fn decode(id: CommandID, payload: Seq<u8>) -> Option<Self> {
        if id == RequestCommand::ID {
            match RequestCommand::of_wire(payload) {
                Some(command) => Some(SendBundle::RequestCommand(command)),
                None => None,
            }
        } else if id == BrightnessCommand::ID {
            match BrightnessCommand::of_wire(payload) {
                Some(command) => Some(SendBundle::BrightnessCommand(command)),
                None => None,
            }
        } else if id == PIDCommand::ID {
            match PIDCommand::of_wire(payload) {
                Some(command) => Some(SendBundle::PIDCommand(command)),
                None => None,
            }
        } else {
            None
        }
    }

    open spec fn id(&self) -> CommandID {
        match self {
            SendBundle::RequestCommand(_) => RequestCommand::ID,
            SendBundle::BrightnessCommand(_) => BrightnessCommand::ID,
            SendBundle::PIDCommand(_) => PIDCommand::ID,
        }
    }

    open spec fn payload(&self) -> Seq<u8> {
        match self {
            SendBundle::RequestCommand(command) => command.wire(),
            SendBundle::BrightnessCommand(command) => command.wire(),
            SendBundle::PIDCommand(command) => command.wire(),
        }
    }

    proof fn payload_fits(id: CommandID) {
    }

    proof fn decode_encoded(&self) {
        match self {
            SendBundle::RequestCommand(command) => command.decode_encoded(),
            SendBundle::BrightnessCommand(command) => command.decode_encoded(),
            SendBundle::PIDCommand(command) => command.decode_encoded(),
        }
    }

    proof fn encode_decoded(id: CommandID, payload: Seq<u8>) {
        RequestCommand::encode_decoded(payload);
        BrightnessCommand::encode_decoded(payload);
        PIDCommand::encode_decoded(payload);
    }

    fn size_of(id: CommandID) -> (size: Option<usize>) {
        if id == RequestCommand::ID {
            Some(RequestCommand::SIZE)
        } else if id == BrightnessCommand::ID {
            Some(BrightnessCommand::SIZE)
        } else if id == PIDCommand::ID {
            Some(PIDCommand::SIZE)
        } else {
            None
        }
    }

    fn parse(id: CommandID, payload: &[u8]) -> (command: Option<Self>) {
        if id == RequestCommand::ID {
            match RequestCommand::deserialize(payload) {
                Some(command) => Some(SendBundle::RequestCommand(command)),
                None => None,
            }
        } else if id == BrightnessCommand::ID {
            match BrightnessCommand::deserialize(payload) {
                Some(command) => Some(SendBundle::BrightnessCommand(command)),
                None => None,
            }
        } else if id == PIDCommand::ID {
            match PIDCommand::deserialize(payload) {
                Some(command) => Some(SendBundle::PIDCommand(command)),
                None => None,
            }
        } else {
            None
        }
    }

    fn command_id(&self) -> (id: CommandID) {
        match self {
            SendBundle::RequestCommand(_) => RequestCommand::ID,
            SendBundle::BrightnessCommand(_) => BrightnessCommand::ID,
            SendBundle::PIDCommand(_) => PIDCommand::ID,
        }
    }

    fn serialize(&self) -> (payload: Vec<u8>) {
        match self {
            SendBundle::RequestCommand(command) => command.serialize(),
            SendBundle::BrightnessCommand(command) => command.serialize(),
            SendBundle::PIDCommand(command) => command.serialize(),
        }
    }
}

} // verus!
