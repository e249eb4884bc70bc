//! The two bundles: the commands that a device sends, and those that it takes.

use crate::commands::{Config, Control, Monitor, Request, Reset, Status};
use crate::reader::ParseCommandBundle;
use crate::types::CommandID;
use vstd::prelude::*;

verus! {

/// A command that the device sends: its records, asked for or not.
#[derive(Debug, Clone, Copy, PartialEq, Eq, Structural)]
pub enum FromHeadlightBundle {
    Status(Status),
    Control(Control),
    Monitor(Monitor),
    Config(Config),
}

/// A command that the device takes.
#[derive(Debug, Clone, Copy, PartialEq, Eq, Structural)]
pub enum ToHeadlightBundle {
    Request(Request),
    Control(Control),
    Config(Config),
    Reset(Reset),
}

impl ParseCommandBundle for FromHeadlightBundle {
    open spec fn payload_size(id: CommandID) -> Option<usize> {
        if id == Status::ID {
            Some(Status::SIZE)
        } else if id == Control::ID {
            Some(Control::SIZE)
        } else if id == Monitor::ID {
            Some(Monitor::SIZE)
        } else if id == Config::ID {
            Some(Config::SIZE)
        } else {
            None
        }
    }

    open spec fn decode(id: CommandID, payload: Seq<u8>) -> Option<Self> {
        if id == Status::ID {
            match Status::of_wire(payload) {
                Some(command) => Some(FromHeadlightBundle::Status(command)),
                None => None,
            }
        } else if id == Control::ID {
            match Control::of_wire(payload) {
                Some(command) => Some(FromHeadlightBundle::Control(command)),
                None => None,
            }
        } else if id == Monitor::ID {
            match Monitor::of_wire(payload) {
                Some(command) => Some(FromHeadlightBundle::Monitor(command)),
                None => None,
            }
        } else if id == Config::ID {
            match Config::of_wire(payload) {
                Some(command) => Some(FromHeadlightBundle::Config(command)),
                None => None,
            }
        } else {
            None
        }
    }

    open spec fn id(&self) -> CommandID {
        match self {
            FromHeadlightBundle::Status(_) => Status::ID,
            FromHeadlightBundle::Control(_) => Control::ID,
            FromHeadlightBundle::Monitor(_) => Monitor::ID,
            FromHeadlightBundle::Config(_) => Config::ID,
        }
    }

    open spec fn payload(&self) -> Seq<u8> {
        match self {
            FromHeadlightBundle::Status(command) => command.wire(),
            FromHeadlightBundle::Control(command) => command.wire(),
            FromHeadlightBundle::Monitor(command) => command.wire(),
            FromHeadlightBundle::Config(command) => command.wire(),
        }
    }

    proof fn payload_fits(id: CommandID) {
    }

    proof fn decode_encoded(&self) {
        match self {
            FromHeadlightBundle::Status(command) => command.decode_encoded(),
            FromHeadlightBundle::Control(command) => command.decode_encoded(),
            FromHeadlightBundle::Monitor(command) => command.decode_encoded(),
            FromHeadlightBundle::Config(command) => command.decode_encoded(),
        }
    }

    proof fn encode_decoded(id: CommandID, payload: Seq<u8>) {
        Status::encode_decoded(payload);
        Control::encode_decoded(payload);
        Monitor::encode_decoded(payload);
        Config::encode_decoded(payload);
    }

    fn size_of(id: CommandID) -> (size: Option<usize>) {
        if id == Status::ID {
            Some(Status::SIZE)
        } else if id == Control::ID {
            Some(Control::SIZE)
        } else if id == Monitor::ID {
            Some(Monitor::SIZE)
        } else if id == Config::ID {
            Some(Config::SIZE)
        } else {
            None
        }
    }

    fn parse(id: CommandID, payload: &[u8]) -> (command: Option<Self>) {
        if id == Status::ID {
            match Status::deserialize(payload) {
                Some(command) => Some(FromHeadlightBundle::Status(command)),
                None => None,
            }
        } else if id == Control::ID {
            match Control::deserialize(payload) {
                Some(command) => Some(FromHeadlightBundle::Control(command)),
                None => None,
            }
        } else if id == Monitor::ID {
            match Monitor::deserialize(payload) {
                Some(command) => Some(FromHeadlightBundle::Monitor(command)),
                None => None,
            }
        } else if id == Config::ID {
            match Config::deserialize(payload) {
                Some(command) => Some(FromHeadlightBundle::Config(command)),
                None => None,
            }
        } else {
            None
        }
    }

    fn command_id(&self) -> (id: CommandID) {
        match self {
            FromHeadlightBundle::Status(_) => Status::ID,
            FromHeadlightBundle::Control(_) => Control::ID,
            FromHeadlightBundle::Monitor(_) => Monitor::ID,
            FromHeadlightBundle::Config(_) => Config::ID,
        }
    }

    fn serialize(&self) -> (payload: Vec<u8>) {
        match self {
            FromHeadlightBundle::Status(command) => command.serialize(),
            FromHeadlightBundle::Control(command) => command.serialize(),
            FromHeadlightBundle::Monitor(command) => command.serialize(),
            FromHeadlightBundle::Config(command) => command.serialize(),
        }
    }
}

impl ParseCommandBundle for ToHeadlightBundle {
    open spec fn payload_size(id: CommandID) -> Option<usize> {
        if id == Request::ID {
            Some(Request::SIZE)
        } else if id == Control::ID {
            Some(Control::SIZE)
        } else if id == Config::ID {
            Some(Config::SIZE)
        } else if id == Reset::ID {
            Some(Reset::SIZE)
        } else {
            None
        }
    }

    open spec fn decode(id: CommandID, payload: Seq<u8>) -> Option<Self> {
        if id == Request::ID {
            match Request::of_wire(payload) {
                Some(command) => Some(ToHeadlightBundle::Request(command)),
                None => None,
            }
        } else if id == Control::ID {
            match Control::of_wire(payload) {
                Some(command) => Some(ToHeadlightBundle::Control(command)),
                None => None,
            }
        } else if id == Config::ID {
            match Config::of_wire(payload) {
                Some(command) => Some(ToHeadlightBundle::Config(command)),
                None => None,
            }
        } else if id == Reset::ID {
            match Reset::of_wire(payload) {
                Some(command) => Some(ToHeadlightBundle::Reset(command)),
                None => None,
            }
        } else {
            None
        }
    }

    open spec fn id(&self) -> CommandID {
        match self {
            ToHeadlightBundle::Request(_) => Request::ID,
            ToHeadlightBundle::Control(_) => Control::ID,
            ToHeadlightBundle::Config(_) => Config::ID,
            ToHeadlightBundle::Reset(_) => Reset::ID,
        }
    }

    open spec fn payload(&self) -> Seq<u8> {
        match self {
            ToHeadlightBundle::Request(command) => command.wire(),
            ToHeadlightBundle::Control(command) => command.wire(),
            ToHeadlightBundle::Config(command) => command.wire(),
            ToHeadlightBundle::Reset(command) => command.wire(),
        }
    }

    proof fn payload_fits(id: CommandID) {
    }

    proof fn decode_encoded(&self) {
        match self {
            ToHeadlightBundle::Request(command) => command.decode_encoded(),
            ToHeadlightBundle::Control(command) => command.decode_encoded(),
            ToHeadlightBundle::Config(command) => command.decode_encoded(),
            ToHeadlightBundle::Reset(command) => command.decode_encoded(),
        }
    }

    proof fn encode_decoded(id: CommandID, payload: Seq<u8>) {
        Request::encode_decoded(payload);
        Control::encode_decoded(payload);
        Config::encode_decoded(payload);
        Reset::encode_decoded(payload);
    }

    fn size_of(id: CommandID) -> (size: Option<usize>) {
        if id == Request::ID {
            Some(Request::SIZE)
        } else if id == Control::ID {
            Some(Control::SIZE)
        } else if id == Config::ID {
            Some(Config::SIZE)
        } else if id == Reset::ID {
            Some(Reset::SIZE)
        } else {
            None
        }
    }

    fn parse(id: CommandID, payload: &[u8]) -> (command: Option<Self>) {
        if id == Request::ID {
            match Request::deserialize(payload) {
                Some(command) => Some(ToHeadlightBundle::Request(command)),
                None => None,
            }
        } else if id == Control::ID {
            match Control::deserialize(payload) {
                Some(command) => Some(ToHeadlightBundle::Control(command)),
                None => None,
            }
        } else if id == Config::ID {
            match Config::deserialize(payload) {
                Some(command) => Some(ToHeadlightBundle::Config(command)),
                None => None,
            }
        } else if id == Reset::ID {
            match Reset::deserialize(payload) {
                Some(command) => Some(ToHeadlightBundle::Reset(command)),
                None => None,
            }
        } else {
            None
        }
    }

    fn command_id(&self) -> (id: CommandID) {
        match self {
            ToHeadlightBundle::Request(_) => Request::ID,
            ToHeadlightBundle::Control(_) => Control::ID,
            ToHeadlightBundle::Config(_) => Config::ID,
            ToHeadlightBundle::Reset(_) => Reset::ID,
        }
    }

    fn serialize(&self) -> (payload: Vec<u8>) {
        match self {
            ToHeadlightBundle::Request(command) => command.serialize(),
            ToHeadlightBundle::Control(command) => command.serialize(),
            ToHeadlightBundle::Config(command) => command.serialize(),
            ToHeadlightBundle::Reset(command) => command.serialize(),
        }
    }
}

impl From<Status> for FromHeadlightBundle {
    fn from(value: Status) -> (bundle: Self) {
        FromHeadlightBundle::Status(value)
    }
}

impl vstd::std_specs::convert::FromSpecImpl<Status> for FromHeadlightBundle {
    open spec fn obeys_from_spec() -> bool {
        true
    }

    open spec fn from_spec(value: Status) -> Self {
        FromHeadlightBundle::Status(value)
    }
}

impl From<Control> for FromHeadlightBundle {
    fn from(value: Control) -> (bundle: Self) {
        FromHeadlightBundle::Control(value)
    }
}

impl vstd::std_specs::convert::FromSpecImpl<Control> for FromHeadlightBundle {
    open spec fn obeys_from_spec() -> bool {
        true
    }

    open spec fn from_spec(value: Control) -> Self {
        FromHeadlightBundle::Control(value)
    }
}

impl From<Monitor> for FromHeadlightBundle {
    fn from(value: Monitor) -> (bundle: Self) {
        FromHeadlightBundle::Monitor(value)
    }
}

impl vstd::std_specs::convert::FromSpecImpl<Monitor> for FromHeadlightBundle {
    open spec fn obeys_from_spec() -> bool {
        true
    }

    open spec fn from_spec(value: Monitor) -> Self {
        FromHeadlightBundle::Monitor(value)
    }
}

impl From<Config> for FromHeadlightBundle {
    fn from(value: Config) -> (bundle: Self) {
        FromHeadlightBundle::Config(value)
    }
}

impl vstd::std_specs::convert::FromSpecImpl<Config> for FromHeadlightBundle {
    open spec fn obeys_from_spec() -> bool {
        true
    }

    open spec fn from_spec(value: Config) -> Self {
        FromHeadlightBundle::Config(value)
    }
}

impl From<Request> for ToHeadlightBundle {
    fn from(value: Request) -> (bundle: Self) {
        ToHeadlightBundle::Request(value)
    }
}

impl vstd::std_specs::convert::FromSpecImpl<Request> for ToHeadlightBundle {
    open spec fn obeys_from_spec() -> bool {
        true
    }

    open spec fn from_spec(value: Request) -> Self {
        ToHeadlightBundle::Request(value)
    }
}

impl From<Control> for ToHeadlightBundle {
    fn from(value: Control) -> (bundle: Self) {
        ToHeadlightBundle::Control(value)
    }
}

impl vstd::std_specs::convert::FromSpecImpl<Control> for ToHeadlightBundle {
    open spec fn obeys_from_spec() -> bool {
        true
    }

    open spec fn from_spec(value: Control) -> Self {
        ToHeadlightBundle::Control(value)
    }
}

impl From<Config> for ToHeadlightBundle {
    fn from(value: Config) -> (bundle: Self) {
        ToHeadlightBundle::Config(value)
    }
}

impl vstd::std_specs::convert::FromSpecImpl<Config> for ToHeadlightBundle {
    open spec fn obeys_from_spec() -> bool {
        true
    }

    open spec fn from_spec(value: Config) -> Self {
        ToHeadlightBundle::Config(value)
    }
}

impl From<Reset> for ToHeadlightBundle {
    fn from(value: Reset) -> (bundle: Self) {
        ToHeadlightBundle::Reset(value)
    }
}

impl vstd::std_specs::convert::FromSpecImpl<Reset> for ToHeadlightBundle {
    open spec fn obeys_from_spec() -> bool {
        true
    }

    open spec fn from_spec(value: Reset) -> Self {
        ToHeadlightBundle::Reset(value)
    }
}

} // verus!
