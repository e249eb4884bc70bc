//! The wireless bridge: what a client's writes become on the serial side, and
//! what the device's commands become on the wireless side.

use crate::bundles::{FromHeadlightBundle, ToHeadlightBundle};
use crate::commands::{AppError, Config, Control, Request, Reset};
use crate::limits::{device_properties, properties};
use crate::reader::ParseCommandBundle;
use vstd::prelude::*;

verus! {

/// The values that the bridge offers to its client.
#[derive(Debug, Clone, Copy, PartialEq, Eq, Structural)]
pub enum Characteristic {
    /// What the device is. Read.
    Properties,
    /// Asks for a record. Written.
    Request,
    /// The status of the device. Notified.
    Status,
    /// The control in force. Written and notified.
    Control,
    /// The regulator's snapshot. Notified.
    Monitor,
    /// The configuration. Written and notified.
    Config,
    /// Restarts the device. Written.
    Reset,
    /// A diagnostic of the bridge. Notified.
    AppError,
}

/// A value to notify the client of.
pub struct Notification {
    pub characteristic: Characteristic,
    pub value: Vec<u8>,
}

/// What the bridge does with a write of its client.
#[derive(Debug, Clone, Copy, PartialEq, Eq, Structural)]
pub enum Ingest {
    /// The value is not one that a client writes.
    Ignored,
    /// Queue this command for the device.
    Queue(ToHeadlightBundle),
    /// Tell the client that its write was no command.
    Reject(AppError),
}

/// The command that `data`, written to `characteristic`, stands for.
pub open spec fn written(characteristic: Characteristic, data: Seq<u8>) -> Ingest {
    match characteristic {
        Characteristic::Request => match Request::of_wire(data) {
            Some(command) => Ingest::Queue(ToHeadlightBundle::Request(command)),
            None => Ingest::Reject(AppError::InvalidPacket),
        },
        Characteristic::Control => match Control::of_wire(data) {
            Some(command) => Ingest::Queue(ToHeadlightBundle::Control(command)),
            None => Ingest::Reject(AppError::InvalidPacket),
        },
        Characteristic::Config => match Config::of_wire(data) {
            Some(command) => Ingest::Queue(ToHeadlightBundle::Config(command)),
            None => Ingest::Reject(AppError::InvalidPacket),
        },
        Characteristic::Reset => match Reset::of_wire(data) {
            Some(command) => Ingest::Queue(ToHeadlightBundle::Reset(command)),
            None => Ingest::Reject(AppError::InvalidPacket),
        },
        _ => Ingest::Ignored,
    }
}

/// Turns a write of the client into the command for the device. Bytes that are
/// no command of the characteristic written to are an invalid packet.
pub fn ingest(characteristic: Characteristic, data: &[u8]) -> (r: Ingest)
    ensures
        r == written(characteristic, data@),
{
    match characteristic {
        Characteristic::Request => match Request::deserialize(data) {
            Some(command) => Ingest::Queue(ToHeadlightBundle::Request(command)),
            None => Ingest::Reject(AppError::InvalidPacket),
        },
        Characteristic::Control => match Control::deserialize(data) {
            Some(command) => Ingest::Queue(ToHeadlightBundle::Control(command)),
            None => Ingest::Reject(AppError::InvalidPacket),
        },
        Characteristic::Config => match Config::deserialize(data) {
            Some(command) => Ingest::Queue(ToHeadlightBundle::Config(command)),
            None => Ingest::Reject(AppError::InvalidPacket),
        },
        Characteristic::Reset => match Reset::deserialize(data) {
            Some(command) => Ingest::Queue(ToHeadlightBundle::Reset(command)),
            None => Ingest::Reject(AppError::InvalidPacket),
        },
        _ => Ingest::Ignored,
    }
}

/// The diagnostic for a command that was to be queued: none where the queue took
/// it, and too fast where the queue was full.
pub fn queued(taken: bool) -> (r: Option<AppError>)
    ensures
        r == if taken {
            None
        } else {
            Some(AppError::TooFast)
        },
{
    if taken {
        None
    } else {
        Some(AppError::TooFast)
    }
}

/// The characteristic that carries a command of the device.
pub open spec fn characteristic_of(bundle: FromHeadlightBundle) -> Characteristic {
    match bundle {
        FromHeadlightBundle::Status(_) => Characteristic::Status,
        FromHeadlightBundle::Control(_) => Characteristic::Control,
        FromHeadlightBundle::Monitor(_) => Characteristic::Monitor,
        FromHeadlightBundle::Config(_) => Characteristic::Config,
    }
}

/// The notification that passes a command of the device on to the client: the
/// command's payload, on the command's characteristic.
pub fn notification(bundle: &FromHeadlightBundle) -> (r: Notification)
    ensures
        r.characteristic == characteristic_of(*bundle),
        r.value@ == bundle.payload(),
{
    let characteristic = match bundle {
        FromHeadlightBundle::Status(_) => Characteristic::Status,
        FromHeadlightBundle::Control(_) => Characteristic::Control,
        FromHeadlightBundle::Monitor(_) => Characteristic::Monitor,
        FromHeadlightBundle::Config(_) => Characteristic::Config,
    };
    Notification { characteristic, value: bundle.serialize() }
}

/// What the bridge does with a command of the device: it passes the command on
/// to a client that is connected, and drops it where there is none.
pub fn relay(bundle: &FromHeadlightBundle, connected: bool) -> (r: Option<Notification>)
    ensures
        connected ==> r is Some && r->Some_0.characteristic == characteristic_of(*bundle)
            && r->Some_0.value@ == bundle.payload(),
        !connected ==> r is None,
{
    if connected {
        Some(notification(bundle))
    } else {
        None
    }
}

/// The notification that tells the client of a diagnostic.
pub fn diagnostic(error: AppError) -> (r: Notification)
    ensures
        r.characteristic == Characteristic::AppError,
        r.value@ == error.wire(),
{
    Notification { characteristic: Characteristic::AppError, value: error.serialize() }
}

/// The value of the properties characteristic.
pub fn set_version() -> (value: Vec<u8>)
    ensures
        value@ == device_properties().wire(),
{
    properties().serialize()
}

/// What a client writes for a command is what the bridge takes for it.
pub proof fn ingest_written(bundle: ToHeadlightBundle)
    ensures
        written(
            match bundle {
                ToHeadlightBundle::Request(_) => Characteristic::Request,
                ToHeadlightBundle::Control(_) => Characteristic::Control,
                ToHeadlightBundle::Config(_) => Characteristic::Config,
                ToHeadlightBundle::Reset(_) => Characteristic::Reset,
            },
            bundle.payload(),
        ) == Ingest::Queue(bundle),
{
    bundle.decode_encoded();
    match bundle {
        ToHeadlightBundle::Request(command) => command.decode_encoded(),
        ToHeadlightBundle::Control(command) => command.decode_encoded(),
        ToHeadlightBundle::Config(command) => command.decode_encoded(),
        ToHeadlightBundle::Reset(command) => command.decode_encoded(),
    }
}

} // verus!
