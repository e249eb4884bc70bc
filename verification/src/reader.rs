//! The receiving side of the protocol: a decoder that finds checksummed frames in
//! a byte stream without delimiters and finds its place again after corrupt bytes.
//!
//! A frame is an identifier, a checksum and a payload whose size the identifier
//! decides. The checksum covers the identifier and the payload.

use crate::checksum::{checksum, crc8_autosar};
use crate::scan_buf::{ScanBuf, BUF_SIZE};
use crate::types::{CRCRepr, CommandHeader, CommandID};
use vstd::prelude::*;
use vstd::slice::slice_subrange;

verus! {

/// Number of bytes that precede the payload in a frame.
pub const HEADER_LEN: usize = 2;

/// The largest payload that a frame may carry: with its header it fills the scan
/// buffer.
pub const MAX_PAYLOAD: usize = 62;

/// The closed set of commands that travel in one direction. Each command has an
/// identifier of its own and a payload of fixed size.
pub trait ParseCommandBundle: Sized {
    /// The size of the payload that follows `id`, or `None` where the bundle has
    /// no command with that identifier.
    spec fn payload_size(id: CommandID) -> Option<usize>;

    /// The command that `id` and `payload` stand for, if there is one.
    spec fn decode(id: CommandID, payload: Seq<u8>) -> Option<Self>;

    /// The identifier of this command.
    spec fn id(&self) -> CommandID;

    /// The payload of this command.
    spec fn payload(&self) -> Seq<u8>;

    /// Every payload fits into a frame that the scan buffer can hold.
    proof fn payload_fits(id: CommandID)
        ensures
            Self::payload_size(id) matches Some(n) ==> n <= MAX_PAYLOAD,
    ;

    /// A command's own identifier and payload decode to that command, and the
    /// payload has the size that the identifier announces.
    proof fn decode_encoded(&self)
        ensures
            Self::payload_size(self.id()) == Some(self.payload().len() as usize),
            self.payload().len() <= MAX_PAYLOAD,
            Self::decode(self.id(), self.payload()) == Some(*self),
    ;

    /// Only a payload of the announced size decodes, and only to a command that
    /// encodes to the same identifier and payload.
    proof fn encode_decoded(id: CommandID, payload: Seq<u8>)
        ensures
            Self::decode(id, payload) matches Some(command) ==> Self::payload_size(id) == Some(
                payload.len() as usize,
            ) && command.id() == id && command.payload() == payload,
    ;

    fn size_of(id: CommandID) -> (size: Option<usize>)
        ensures
            size == Self::payload_size(id),
    ;

    fn parse(id: CommandID, payload: &[u8]) -> (command: Option<Self>)
        ensures
            command == Self::decode(id, payload@),
    ;

    fn command_id(&self) -> (id: CommandID)
        ensures
            id == self.id(),
    ;

    fn serialize(&self) -> (payload: Vec<u8>)
        ensures
            payload@ == self.payload(),
    ;
}

/// The bytes that the checksum of a frame covers.
pub open spec fn checked_bytes(id: CommandID, payload: Seq<u8>) -> Seq<u8> {
    seq![id] + payload
}

/// The frame of a command on the wire.
pub open spec fn frame<B: ParseCommandBundle>(command: B) -> Seq<u8> {
    seq![command.id(), crc8_autosar(checked_bytes(command.id(), command.payload()))]
        + command.payload()
}

/// What one attempt to read a frame at the head of the buffer finds.
pub enum Attempt<B> {
    /// The buffer is empty, or ends before the frame that its head announces.
    NotFound,
    /// The head is no known identifier, or its payload is no command. The head
    /// byte is noise.
    Malformed,
    /// A whole frame of this many bytes, with a checksum that is not its own.
    Corrupt(usize),
    /// A valid frame of this many bytes, and its command.
    Frame(usize, B),
}

/// The attempt at the head of `buf`.
pub open spec fn attempt<B: ParseCommandBundle>(buf: Seq<u8>) -> Attempt<B> {
    if buf.len() == 0 {
        Attempt::NotFound
    } else {
        match B::payload_size(buf[0]) {
            None => Attempt::Malformed,
            Some(n) => if buf.len() < HEADER_LEN + n {
                Attempt::NotFound
            } else {
                let payload = buf.subrange(HEADER_LEN as int, HEADER_LEN + n);
                match B::decode(buf[0], payload) {
                    None => Attempt::Malformed,
                    Some(command) => if crc8_autosar(checked_bytes(buf[0], payload)) == buf[1] {
                        Attempt::Frame((HEADER_LEN + n) as usize, command)
                    } else {
                        Attempt::Corrupt((HEADER_LEN + n) as usize)
                    },
                }
            },
        }
    }
}

/// An attempt that finds anything but `NotFound` has bytes to discard, all of them
/// in the buffer.
pub proof fn attempt_within<B: ParseCommandBundle>(buf: Seq<u8>)
    ensures
        !(attempt::<B>(buf) is NotFound) ==> 1 <= discarded(attempt::<B>(buf)) <= buf.len(),
        attempt::<B>(buf) is NotFound ==> discarded(attempt::<B>(buf)) == 0,
{
    if buf.len() > 0 {
        B::payload_fits(buf[0]);
    }
}

/// Number of bytes that an attempt discards from the head of the buffer.
pub open spec fn discarded<B>(found: Attempt<B>) -> nat {
    match found {
        Attempt::NotFound => 0,
        Attempt::Malformed => 1,
        Attempt::Corrupt(n) => n as nat,
        Attempt::Frame(n, _) => n as nat,
    }
}

/// One scan of `buf`: attempts at the head, each failed one discarding its bytes,
/// until a valid frame is found or the buffer holds no whole frame at its head.
/// Returns the command found, if any, and what is left of the buffer.
pub open spec fn scan<B: ParseCommandBundle>(buf: Seq<u8>) -> (Option<B>, Seq<u8>)
    decreases buf.len(),
{
    match attempt::<B>(buf) {
        Attempt::NotFound => (None, buf),
        Attempt::Frame(n, command) => (Some(command), buf.skip(n as int)),
        Attempt::Malformed => if buf.len() >= 1 {
            scan::<B>(buf.skip(1))
        } else {
            (None, buf)
        },
        Attempt::Corrupt(n) => if 1 <= n <= buf.len() {
            scan::<B>(buf.skip(n as int))
        } else {
            (None, buf)
        },
    }
}

/// What a scan leaves is the end of what it was given. A scan that finds a
/// command consumes at least its frame's header; one that finds none stops where
/// only more bytes can help.
pub proof fn scan_progress<B: ParseCommandBundle>(buf: Seq<u8>)
    ensures
        scan::<B>(buf).1.len() <= buf.len(),
        scan::<B>(buf).1 == buf.skip(buf.len() - scan::<B>(buf).1.len()),
        scan::<B>(buf).0 is Some ==> scan::<B>(buf).1.len() + HEADER_LEN <= buf.len(),
        scan::<B>(buf).0 is None ==> attempt::<B>(scan::<B>(buf).1) is NotFound,
    decreases buf.len(),
{
    attempt_within::<B>(buf);
    let n = discarded(attempt::<B>(buf)) as int;
    match attempt::<B>(buf) {
        Attempt::NotFound => {
            assert(buf.skip(0) == buf);
        },
        Attempt::Frame(_, _) => {
            if buf.len() > 0 {
                B::payload_fits(buf[0]);
            }
        },
        _ => {
            let rest = buf.skip(n);
            scan_progress::<B>(rest);
            let left = scan::<B>(rest).1;
            assert(rest.skip(rest.len() - left.len()) == buf.skip(buf.len() - left.len()));
        },
    }
}

/// A frame at the head of the buffer is found, and exactly its bytes are
/// consumed.
pub proof fn scan_frame<B: ParseCommandBundle>(command: B, rest: Seq<u8>)
    ensures
        frame(command).len() == HEADER_LEN + command.payload().len(),
        frame(command).len() <= BUF_SIZE,
        attempt::<B>(frame(command) + rest) == Attempt::Frame(
            frame(command).len() as usize,
            command,
        ),
        scan::<B>(frame(command) + rest) == (Some(command), rest),
{
    command.decode_encoded();
    let buf = frame(command) + rest;
    let n = command.payload().len() as int;
    assert(buf.subrange(HEADER_LEN as int, HEADER_LEN + n) == command.payload());
    assert(buf.skip(HEADER_LEN + n) == rest);
}

/// A whole frame whose checksum byte is not the checksum of the identifier and
/// payload that it carries yields no command: it is discarded whole, and the scan
/// goes on behind it. This is what becomes of a frame with a damaged byte,
/// whenever the damage changes the checksum or is in the checksum byte itself.
pub proof fn scan_corrupt<B: ParseCommandBundle>(command: B, crc: CRCRepr, rest: Seq<u8>)
    requires
        crc != crc8_autosar(checked_bytes(command.id(), command.payload())),
    ensures
        attempt::<B>(seq![command.id(), crc] + command.payload() + rest) == Attempt::<
            B,
        >::Corrupt((HEADER_LEN + command.payload().len()) as usize),
        scan::<B>(seq![command.id(), crc] + command.payload() + rest) == scan::<B>(rest),
{
    command.decode_encoded();
    let buf = seq![command.id(), crc] + command.payload() + rest;
    let n = command.payload().len() as int;
    assert(buf.subrange(HEADER_LEN as int, HEADER_LEN + n) == command.payload());
    assert(buf.skip(HEADER_LEN + n) == rest);
}

/// Whether no byte of `noise` is the identifier of a command of the bundle.
pub open spec fn unknown<B: ParseCommandBundle>(noise: Seq<u8>) -> bool {
    forall|i: int| 0 <= i < noise.len() ==> B::payload_size(#[trigger] noise[i]) is None
}

/// Bytes that are no identifiers are passed over: the scan goes on behind them.
pub proof fn scan_noise<B: ParseCommandBundle>(noise: Seq<u8>, rest: Seq<u8>)
    requires
        unknown::<B>(noise),
    ensures
        scan::<B>(noise + rest) == scan::<B>(rest),
    decreases noise.len(),
{
    if noise.len() == 0 {
        assert(noise + rest == rest);
    } else {
        let buf = noise + rest;
        assert(buf[0] == noise[0]);
        assert(buf.skip(1) == noise.skip(1) + rest);
        assert forall|i: int| 0 <= i < noise.skip(1).len() implies B::payload_size(
            #[trigger] noise.skip(1)[i],
        ) is None by {
            assert(noise.skip(1)[i] == noise[i + 1]);
        }
        scan_noise::<B>(noise.skip(1), rest);
    }
}

/// A piece of a stream: bytes that belong to no frame, or the frame of a command.
pub enum Segment<B> {
    Noise(Seq<u8>),
    Command(B),
}

/// The bytes of a stream made of `segments`, in order.
pub open spec fn stream<B: ParseCommandBundle>(segments: Seq<Segment<B>>) -> Seq<u8>
    decreases segments.len(),
{
    if segments.len() == 0 {
        Seq::empty()
    } else {
        let head = match segments[0] {
            Segment::Noise(noise) => noise,
            Segment::Command(command) => frame(command),
        };
        head + stream(segments.skip(1))
    }
}

/// The commands whose frames a stream holds, in order.
pub open spec fn commands<B>(segments: Seq<Segment<B>>) -> Seq<B>
    decreases segments.len(),
{
    if segments.len() == 0 {
        Seq::empty()
    } else {
        match segments[0] {
            Segment::Noise(_) => commands(segments.skip(1)),
            Segment::Command(command) => seq![command] + commands(segments.skip(1)),
        }
    }
}

/// Whether the noise of a stream holds no identifier of the bundle.
pub open spec fn noise_unknown<B: ParseCommandBundle>(segments: Seq<Segment<B>>) -> bool {
    forall|i: int|
        0 <= i < segments.len() ==> (#[trigger] segments[i] matches Segment::Noise(noise)
            ==> unknown::<B>(noise))
}

/// Scan after scan until one finds no command: the commands found, in order, and
/// what is left of the buffer.
pub open spec fn drain<B: ParseCommandBundle>(buf: Seq<u8>) -> (Seq<B>, Seq<u8>)
    decreases buf.len(),
{
    match scan::<B>(buf) {
        (Some(command), rest) => if rest.len() < buf.len() {
            (seq![command] + drain::<B>(rest).0, drain::<B>(rest).1)
        } else {
            (seq![command], rest)
        },
        (None, rest) => (Seq::empty(), rest),
    }
}

/// Resynchronization: from a stream of valid frames with noise before, between
/// and after them, the decoder draws exactly the commands of the frames, in
/// order, and leaves nothing behind, whatever the noise, as long as none of its
/// bytes is an identifier of the bundle.
pub proof fn drain_stream<B: ParseCommandBundle>(segments: Seq<Segment<B>>)
    requires
        noise_unknown::<B>(segments),
    ensures
        drain::<B>(stream(segments)) == (commands(segments), Seq::<u8>::empty()),
    decreases segments.len(),
{
    if segments.len() == 0 {
    } else {
        let tail = segments.skip(1);
        assert forall|i: int| 0 <= i < tail.len() implies (#[trigger] tail[i] matches Segment::Noise(
            noise,
        ) ==> unknown::<B>(noise)) by {
            assert(tail[i] == segments[i + 1]);
        }
        drain_stream::<B>(tail);
        match segments[0] {
            Segment::Noise(noise) => {
                scan_noise::<B>(noise, stream(tail));
                drain_after_noise::<B>(noise, stream(tail));
            },
            Segment::Command(command) => {
                scan_frame::<B>(command, stream(tail));
            },
        }
    }
}

/// Noise before a stream changes nothing of what is drawn from it.
proof fn drain_after_noise<B: ParseCommandBundle>(noise: Seq<u8>, rest: Seq<u8>)
    requires
        unknown::<B>(noise),
    ensures
        drain::<B>(noise + rest) == drain::<B>(rest),
{
    scan_noise::<B>(noise, rest);
    scan_progress::<B>(rest);
    let found = scan::<B>(rest);
    if found.0 is Some {
        assert(found.1.len() < rest.len());
        assert(found.1.len() < (noise + rest).len());
    }
}

/// A frame that arrives after an overrun is recognized: the overrun empties the
/// buffer, and the frame is all that the next scan sees.
pub proof fn frame_after_overrun<B: ParseCommandBundle>(
    buffered: Seq<u8>,
    excess: Seq<u8>,
    command: B,
)
    requires
        buffered.len() + excess.len() > BUF_SIZE,
    ensures
        taken_in(buffered, excess) == Seq::<u8>::empty(),
        taken_in(taken_in(buffered, excess), frame(command)) == frame(command),
        scan::<B>(taken_in(taken_in(buffered, excess), frame(command))) == (
            Some(command),
            Seq::<u8>::empty(),
        ),
{
    scan_frame::<B>(command, Seq::empty());
    assert(Seq::<u8>::empty() + frame(command) == frame(command));
    assert(frame(command) + Seq::<u8>::empty() == frame(command));
}

/// The buffer after `incoming` arrived: with it at its end where it fits, and
/// empty where it does not.
pub open spec fn taken_in(buffered: Seq<u8>, incoming: Seq<u8>) -> Seq<u8> {
    if buffered.len() + incoming.len() <= BUF_SIZE {
        buffered + incoming
    } else {
        Seq::empty()
    }
}

/// The bytes of `id` followed by those of `payload`.
fn checked_input(id: CommandID, payload: &[u8]) -> (bytes: Vec<u8>)
    ensures
        bytes@ == checked_bytes(id, payload@),
{
    let mut bytes: Vec<u8> = Vec::new();
    bytes.push(id);
    let mut i: usize = 0;
    while i < payload.len()
        invariant
            i <= payload@.len(),
            bytes@ == seq![id] + payload@.subrange(0, i as int),
        decreases payload@.len() - i,
    {
        bytes.push(payload[i]);
        assert(payload@.subrange(0, i + 1) == payload@.subrange(0, i as int).push(payload@[i as int]));
        i += 1;
    }
    assert(payload@.subrange(0, i as int) == payload@);
    bytes
}

/// The checksum of a frame with this identifier and payload.
pub fn frame_checksum(id: CommandID, payload: &[u8]) -> (crc: CRCRepr)
    ensures
        crc == crc8_autosar(checked_bytes(id, payload@)),
{
    let bytes = checked_input(id, payload);
    checksum(bytes.as_slice())
}

/// Attempts to read a frame from `bytes` at `pos`.
pub fn try_parse_cmd<B: ParseCommandBundle>(bytes: &[u8], pos: usize) -> (found: Attempt<B>)
    requires
        pos <= bytes@.len(),
    ensures
        found == attempt::<B>(bytes@.skip(pos as int)),
{
    let len = bytes.len();
    if pos >= len {
        return Attempt::NotFound;
    }
    let id = bytes[pos];
    let ghost rest = bytes@.skip(pos as int);
    assert(rest[0] == id);
    match B::size_of(id) {
        None => Attempt::Malformed,
        Some(n) => {
            proof {
                B::payload_fits(id);
            }
            if len - pos < HEADER_LEN + n {
                return Attempt::NotFound;
            }
            let crc = bytes[pos + 1];
            assert(rest[1] == crc);
            let payload = slice_subrange(bytes, pos + HEADER_LEN, pos + HEADER_LEN + n);
            assert(payload@ == rest.subrange(HEADER_LEN as int, HEADER_LEN + n));
            match B::parse(id, payload) {
                None => Attempt::Malformed,
                Some(command) => {
                    let observed = frame_checksum(id, payload);
                    match validate_crc(CommandHeader { id, crc }, observed, command) {
                        Some(command) => Attempt::Frame(HEADER_LEN + n, command),
                        None => Attempt::Corrupt(HEADER_LEN + n),
                    }
                },
            }
        },
    }
}

/// Hands `bundle` on where the checksum that came with it is the one observed.
pub fn validate_crc<B>(header: CommandHeader, observed: CRCRepr, bundle: B) -> (r: Option<B>)
    ensures
        r == if header.crc == observed {
            Some(bundle)
        } else {
            None
        },
{
    if header.crc == observed {
        Some(bundle)
    } else {
        None
    }
}

/// Reads commands from the transport `rx`, through a scan buffer.
pub struct HeadlightCommandReader<HWReader> {
    /// The transport that the bytes come from.
    pub rx: HWReader,
    /// The bytes received and not yet consumed or discarded.
    pub buf: ScanBuf,
}

impl<HWReader> HeadlightCommandReader<HWReader> {
    pub fn new(rx: HWReader) -> (reader: Self)
        ensures
            reader.rx == rx,
            reader.buf@ == Seq::<u8>::empty(),
    {
        HeadlightCommandReader { rx, buf: ScanBuf::new() }
    }

    /// Takes in what the transport has received. Bytes that do not fit are not
    /// taken in part: everything buffered is dropped with them.
    pub fn poll(&mut self, incoming: &[u8]) -> (accepted: bool)
        ensures
            final(self).rx == old(self).rx,
            accepted <==> old(self).buf@.len() + incoming@.len() <= BUF_SIZE,
            final(self).buf@ == taken_in(old(self).buf@, incoming@),
    {
        if self.buf.push_slice(incoming).is_err() {
            self.buf.clear();
            false
        } else {
            true
        }
    }

    /// Scans the buffer for the next command. Noise and corrupt frames that come
    /// before it are discarded; the bytes of an unfinished frame stay.
    pub fn recognizes<B: ParseCommandBundle>(&mut self) -> (command: Option<B>)
        ensures
            final(self).rx == old(self).rx,
            (command, final(self).buf@) == scan::<B>(old(self).buf@),
    {
        let bytes = self.buf.bytes();
        let buffered = self.buf.len();
        assert(bytes@.len() == buffered);
        let mut pos: usize = 0;
        assert(bytes@.skip(0) == bytes@);
        loop
            invariant
                pos <= bytes@.len() <= BUF_SIZE,
                bytes@ == self.buf@,
                self.buf@ == old(self).buf@,
                self.rx == old(self).rx,
                scan::<B>(bytes@.skip(pos as int)) == scan::<B>(bytes@),
            decreases bytes@.len() - pos,
        {
            let ghost rest = bytes@.skip(pos as int);
            proof {
                attempt_within::<B>(rest);
            }
            match try_parse_cmd::<B>(bytes.as_slice(), pos) {
                Attempt::NotFound => {
                    self.buf.eat(pos);
                    return None;
                },
                Attempt::Frame(n, command) => {
                    assert(rest.skip(n as int) == bytes@.skip(pos + n));
                    self.buf.eat(pos + n);
                    return Some(command);
                },
                Attempt::Malformed => {
                    assert(rest.skip(1) == bytes@.skip(pos + 1));
                    pos += 1;
                },
                Attempt::Corrupt(n) => {
                    assert(rest.skip(n as int) == bytes@.skip(pos + n));
                    pos += n;
                },
            }
        }
    }
}

} // verus!
