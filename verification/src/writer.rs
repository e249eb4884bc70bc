//! The sending side of the protocol: a command becomes the bytes of its frame.

use crate::reader::{frame, frame_checksum, ParseCommandBundle, HEADER_LEN};
use crate::types::CommandHeader;
use vstd::prelude::*;

verus! {

/// Writes commands to the transport `tx`.
pub struct HeadlightCommandWriter<HWWriter> {
    /// The transport that the frames go to.
    pub tx: HWWriter,
}

impl<HWWriter> HeadlightCommandWriter<HWWriter> {
    pub fn new(tx: HWWriter) -> (writer: Self)
        ensures
            writer.tx == tx,
    {
        HeadlightCommandWriter { tx }
    }

    /// The header of the frame that carries `command`: its identifier, and the
    /// checksum over identifier and payload.
    pub fn header<B: ParseCommandBundle>(&self, command: &B) -> (header: CommandHeader)
        ensures
            header.wire() == frame(*command).subrange(0, HEADER_LEN as int),
    {
        let payload = command.serialize();
        let id = command.command_id();
        let header = CommandHeader { id, crc: frame_checksum(id, payload.as_slice()) };
        assert(header.wire() =~= frame(*command).subrange(0, HEADER_LEN as int));
        header
    }

    /// The bytes to write for `command`: header, then payload.
    pub fn encode<B: ParseCommandBundle>(&self, command: &B) -> (bytes: Vec<u8>)
        ensures
            bytes@ == frame(*command),
    {
        let mut payload = command.serialize();
        let id = command.command_id();
        let header = CommandHeader { id, crc: frame_checksum(id, payload.as_slice()) };
        let mut bytes = header.serialize();
        bytes.append(&mut payload);
        bytes
    }
}

} // verus!
