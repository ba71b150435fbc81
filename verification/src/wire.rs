//! How commands are laid out on the wire.
//!
//! A command is its number as a little-endian `u32`, followed by its fields in order: a message
//! as its own encoding, a key as its length (a little-endian `u64`) and its bytes. Bytes behind
//! the last field are ignored.

use vstd::prelude::*;
use vstd::bytes::*;
use vstd::slice::slice_subrange;
use crate::command::{Command, CommandView};
use crate::error::NetworkError;
use crate::key::PubKey;

verus! {

/// What went wrong in `bincode`.
#[verifier::external_type_specification]
#[verifier::external_body]
pub struct ExErrorKind(bincode::ErrorKind);

pub const BROADCAST: u32 = 0;
pub const DIRECT: u32 = 1;
pub const IDENTIFY: u32 = 2;
pub const PING: u32 = 3;
pub const PONG: u32 = 4;

/// Where the message of a command begins in its frame.
pub const MESSAGE_OFFSET: usize = 4;

/// A byte string on the wire: its length, then its bytes.
pub open spec fn byte_string(bytes: Seq<u8>) -> Seq<u8> {
    spec_u64_to_le_bytes(bytes.len() as u64) + bytes
}

/// The length that the byte string at the start of `bytes` announces.
pub open spec fn announced_length(bytes: Seq<u8>) -> u64 {
    spec_u64_from_le_bytes(bytes.subrange(0, 8))
}

/// Whether `bytes` starts with a whole byte string.
pub open spec fn starts_with_byte_string(bytes: Seq<u8>) -> bool {
    bytes.len() >= 8 && announced_length(bytes) <= bytes.len() - 8
}

/// `bincode::serialize` of a `u32`: always succeeds, with the four bytes of `n`, the lowest
/// first.
#[verifier::external_body]
fn serialize_u32(n: u32) -> (r: Result<Vec<u8>, Box<bincode::ErrorKind>>)
    ensures
        r is Ok,
        r->Ok_0@ == spec_u32_to_le_bytes(n),
{
    bincode::serialize(&n)
}

/// `bincode::serialize` of a slice of bytes: always succeeds, short of running out of memory, with
/// the length as a little-endian `u64` and the bytes behind it.
#[verifier::external_body]
fn serialize_bytes(bytes: &[u8]) -> (r: Result<Vec<u8>, Box<bincode::ErrorKind>>)
    ensures
        r is Ok,
        r->Ok_0@ == byte_string(bytes@),
{
    bincode::serialize(bytes)
}

/// `bincode::deserialize` to a `u32`: reads the first four bytes, the lowest first, whatever
/// follows them, and fails exactly where there are fewer.
#[verifier::external_body]
fn deserialize_u32(bytes: &[u8]) -> (r: Result<u32, Box<bincode::ErrorKind>>)
    ensures
        r is Ok <==> bytes@.len() >= 4,
        r matches Ok(n) ==> n == spec_u32_from_le_bytes(bytes@.subrange(0, 4)),
{
    bincode::deserialize(bytes)
}

/// `bincode::deserialize` to a vector of bytes: reads a length as a little-endian `u64` and that
/// many bytes behind it, whatever follows them, and fails exactly where there are fewer.
#[verifier::external_body]
fn deserialize_bytes(bytes: &[u8]) -> (r: Result<Vec<u8>, Box<bincode::ErrorKind>>)
    ensures
        r is Ok <==> starts_with_byte_string(bytes@),
        r matches Ok(v) ==> v@ == bytes@.subrange(8, 8 + announced_length(bytes@)),
{
    bincode::deserialize(bytes)
}

/// Why a frame is no command.
#[derive(Clone, Copy, Debug, PartialEq, Eq, Structural)]
pub enum DecodeError {
    /// The frame ends before the command does.
    Truncated,
    /// No command has this number.
    UnknownCommand(u32),
    /// The message could not be decoded.
    BadMessage,
}

/// Which command a frame holds.
#[derive(Clone, Copy, Debug, PartialEq, Eq, Structural)]
pub enum FrameKind {
    Broadcast,
    Direct,
    Identify,
    Ping,
    Pong,
}

impl FrameKind {
    /// Whether a message stands in a frame of this kind.
    pub open spec fn spec_carries_message(self) -> bool {
        self == FrameKind::Broadcast || self == FrameKind::Direct
    }

    /// Whether a message stands in a frame of this kind, from `MESSAGE_OFFSET` on.
    pub fn carries_message(self) -> (r: bool)
        ensures
            r == self.spec_carries_message(),
    {
        match self {
            FrameKind::Broadcast | FrameKind::Direct => true,
            _ => false,
        }
    }
}

/// The kind of the command that `bytes` starts with.
pub open spec fn kind_of(bytes: Seq<u8>) -> Result<FrameKind, DecodeError> {
    let number = spec_u32_from_le_bytes(bytes.subrange(0, 4));
    if bytes.len() < 4 {
        Err(DecodeError::Truncated)
    } else if number == BROADCAST {
        Ok(FrameKind::Broadcast)
    } else if number == DIRECT {
        Ok(FrameKind::Direct)
    } else if number == IDENTIFY {
        Ok(FrameKind::Identify)
    } else if number == PING {
        Ok(FrameKind::Ping)
    } else if number == PONG {
        Ok(FrameKind::Pong)
    } else {
        Err(DecodeError::UnknownCommand(number))
    }
}

/// Tells which command a frame holds.
pub fn frame_kind(bytes: &[u8]) -> (r: Result<FrameKind, DecodeError>)
    ensures
        r == kind_of(bytes@),
{
    match deserialize_u32(bytes) {
        Err(_) => Err(DecodeError::Truncated),
        Ok(number) => {
            if number == BROADCAST {
                Ok(FrameKind::Broadcast)
            } else if number == DIRECT {
                Ok(FrameKind::Direct)
            } else if number == IDENTIFY {
                Ok(FrameKind::Identify)
            } else if number == PING {
                Ok(FrameKind::Ping)
            } else if number == PONG {
                Ok(FrameKind::Pong)
            } else {
                Err(DecodeError::UnknownCommand(number))
            }
        },
    }
}

/// The frame of a command whose message is encoded as its bytes.
pub open spec fn encoding(command: CommandView<Seq<u8>>) -> Seq<u8> {
    match command {
        CommandView::Broadcast { inner, from } => {
            spec_u32_to_le_bytes(BROADCAST) + inner + byte_string(from)
        },
        CommandView::Direct { inner, from, to } => {
            spec_u32_to_le_bytes(DIRECT) + inner + byte_string(from) + byte_string(to)
        },
        CommandView::Identify { from } => spec_u32_to_le_bytes(IDENTIFY) + byte_string(from),
        CommandView::Ping => spec_u32_to_le_bytes(PING),
        CommandView::Pong => spec_u32_to_le_bytes(PONG),
    }
}

/// A message as its encoder left it: its bytes, or what went wrong.
pub type Encoded = Result<Vec<u8>, String>;

/// The outcome of serializing a command around its encoded message.
pub open spec fn serialized(command: CommandView<Encoded>) -> Result<Seq<u8>, NetworkError> {
    if command.carries_message() {
        match command.message() {
            Ok(message) => Ok(encoding(command.with_message(message@))),
            Err(source) => Err(NetworkError::FailedToSerialize { source }),
        }
    } else {
        Ok(encoding(command.with_message(Seq::empty())))
    }
}

/// The frame that starts with command number `number`.
fn start_frame(number: u32) -> (frame: Vec<u8>)
    ensures
        frame@ == spec_u32_to_le_bytes(number),
{
    serialize_u32(number).unwrap()
}

/// Puts a key behind what the frame holds.
fn append_key(frame: &mut Vec<u8>, key: &PubKey)
    ensures
        final(frame)@ == old(frame)@ + byte_string(key@),
{
    let mut bytes = serialize_bytes(key.as_bytes()).unwrap();
    frame.append(&mut bytes);
}

/// Serializes a command. Only a message that its encoder refused keeps it from success.
pub fn serialize_command(command: &Command<Encoded>) -> (r: Result<Vec<u8>, NetworkError>)
    ensures
        match r {
            Ok(frame) => serialized(command@) == Ok::<Seq<u8>, NetworkError>(frame@),
            Err(error) => serialized(command@) == Err::<Seq<u8>, NetworkError>(error),
        },
{
    match command {
        Command::Broadcast { inner, from } => match inner {
            Ok(message) => {
                let mut frame = start_frame(BROADCAST);
                frame.extend_from_slice(message.as_slice());
                assert(frame@ =~= spec_u32_to_le_bytes(BROADCAST) + message@);
                append_key(&mut frame, from);
                Ok(frame)
            },
            Err(source) => Err(NetworkError::FailedToSerialize { source: source.clone() }),
        },
        Command::Direct { inner, from, to } => match inner {
            Ok(message) => {
                let mut frame = start_frame(DIRECT);
                frame.extend_from_slice(message.as_slice());
                assert(frame@ =~= spec_u32_to_le_bytes(DIRECT) + message@);
                append_key(&mut frame, from);
                append_key(&mut frame, to);
                Ok(frame)
            },
            Err(source) => Err(NetworkError::FailedToSerialize { source: source.clone() }),
        },
        Command::Identify { from } => {
            let mut frame = start_frame(IDENTIFY);
            append_key(&mut frame, from);
            Ok(frame)
        },
        Command::Ping => Ok(start_frame(PING)),
        Command::Pong => Ok(start_frame(PONG)),
    }
}

/// The frame that identifies the node with key `from`.
pub fn identify_frame(from: &PubKey) -> (frame: Vec<u8>)
    ensures
        frame@ == encoding(CommandView::Identify { from: from@ }),
{
    let mut frame = start_frame(IDENTIFY);
    append_key(&mut frame, from);
    frame
}

/// The frame of a `Ping`.
pub fn ping_frame() -> (frame: Vec<u8>)
    ensures
        frame@ == encoding(CommandView::Ping),
{
    start_frame(PING)
}

/// The frame of a `Pong`.
pub fn pong_frame() -> (frame: Vec<u8>)
    ensures
        frame@ == encoding(CommandView::Pong),
{
    start_frame(PONG)
}

/// The key that stands in `bytes` from position `at` on.
pub open spec fn key_at(bytes: Seq<u8>, at: int) -> Option<Seq<u8>> {
    let rest = bytes.skip(at);
    if at <= bytes.len() && starts_with_byte_string(rest) {
        Some(rest.subrange(8, 8 + announced_length(rest)))
    } else {
        None
    }
}

/// The command that `bytes` starts with.
///
/// `message` is what its decoder made of the bytes from `MESSAGE_OFFSET` on, with the number of
/// bytes that it read; it matters only where the frame carries a message.
pub open spec fn decoding<T>(bytes: Seq<u8>, message: Option<(T, usize)>) -> Result<
    CommandView<T>,
    DecodeError,
> {
    match kind_of(bytes) {
        Err(error) => Err(error),
        Ok(FrameKind::Broadcast) => match message {
            None => Err(DecodeError::BadMessage),
            Some((inner, read)) => match key_at(bytes, MESSAGE_OFFSET + read) {
                Some(from) => Ok(CommandView::Broadcast { inner, from }),
                None => Err(DecodeError::Truncated),
            },
        },
        Ok(FrameKind::Direct) => match message {
            None => Err(DecodeError::BadMessage),
            Some((inner, read)) => {
                let first = key_at(bytes, MESSAGE_OFFSET + read);
                let second = key_at(bytes, MESSAGE_OFFSET + read + 8 + first->0.len());
                if first is Some && second is Some {
                    Ok(CommandView::Direct { inner, from: first->0, to: second->0 })
                } else {
                    Err(DecodeError::Truncated)
                }
            },
        },
        Ok(FrameKind::Identify) => match key_at(bytes, MESSAGE_OFFSET as int) {
            Some(from) => Ok(CommandView::Identify { from }),
            None => Err(DecodeError::Truncated),
        },
        Ok(FrameKind::Ping) => Ok(CommandView::Ping),
        Ok(FrameKind::Pong) => Ok(CommandView::Pong),
    }
}

/// Reads the key at position `at`; with it comes the position behind it.
fn read_key(bytes: &[u8], at: usize) -> (r: Option<(PubKey, usize)>)
    ensures
        r is Some <==> key_at(bytes@, at as int) is Some,
        r matches Some((key, next)) ==> {
            &&& key@ == key_at(bytes@, at as int)->0
            &&& next == at + 8 + key@.len()
            &&& next <= bytes@.len()
        },
{
    if at > bytes.len() {
        return None;
    }
    let rest = slice_subrange(bytes, at, bytes.len());
    assert(rest@ == bytes@.skip(at as int));
    match deserialize_bytes(rest) {
        Err(_) => None,
        Ok(key) => {
            let next: usize = at + 8 + key.len();
            Some((PubKey::new(key), next))
        },
    }
}

/// Reads the key behind a message of `read` bytes.
fn read_key_behind_message(bytes: &[u8], read: usize) -> (r: Option<(PubKey, usize)>)
    requires
        bytes@.len() >= MESSAGE_OFFSET,
    ensures
        r is Some <==> key_at(bytes@, MESSAGE_OFFSET + read) is Some,
        r matches Some((key, next)) ==> {
            &&& key@ == key_at(bytes@, MESSAGE_OFFSET + read)->0
            &&& next == MESSAGE_OFFSET + read + 8 + key@.len()
            &&& next <= bytes@.len()
        },
{
    if read > bytes.len() - MESSAGE_OFFSET {
        None
    } else {
        read_key(bytes, MESSAGE_OFFSET + read)
    }
}

/// Decodes the command that `bytes` starts with.
///
/// Where the frame carries a message, `message` is the message decoded from the bytes from
/// `MESSAGE_OFFSET` on and the number of bytes that it took up, or `None` where that failed.
pub fn decode_command<T>(bytes: &[u8], message: Option<(T, usize)>) -> (r: Result<
    Command<T>,
    DecodeError,
>)
    ensures
        match r {
            Ok(command) => decoding(bytes@, message) == Ok::<CommandView<T>, DecodeError>(command@),
            Err(error) => decoding(bytes@, message) == Err::<CommandView<T>, DecodeError>(error),
        },
{
    match frame_kind(bytes) {
        Err(error) => Err(error),
        Ok(FrameKind::Broadcast) => match message {
            None => Err(DecodeError::BadMessage),
            Some((inner, read)) => match read_key_behind_message(bytes, read) {
                None => Err(DecodeError::Truncated),
                Some((from, _)) => Ok(Command::Broadcast { inner, from }),
            },
        },
        Ok(FrameKind::Direct) => match message {
            None => Err(DecodeError::BadMessage),
            Some((inner, read)) => match read_key_behind_message(bytes, read) {
                None => Err(DecodeError::Truncated),
                Some((from, next)) => match read_key(bytes, next) {
                    None => Err(DecodeError::Truncated),
                    Some((to, _)) => Ok(Command::Direct { inner, from, to }),
                },
            },
        },
        Ok(FrameKind::Identify) => match read_key(bytes, MESSAGE_OFFSET) {
            None => Err(DecodeError::Truncated),
            Some((from, _)) => Ok(Command::Identify { from }),
        },
        Ok(FrameKind::Ping) => Ok(Command::Ping),
        Ok(FrameKind::Pong) => Ok(Command::Pong),
    }
}

/// A byte string that stands at position `at` is read back from there.
proof fn lemma_key_read_back(bytes: Seq<u8>, at: int, key: Seq<u8>)
    requires
        0 <= at,
        key.len() <= u64::MAX,
        at + 8 + key.len() <= bytes.len(),
        bytes.subrange(at, at + 8 + key.len()) == byte_string(key),
    ensures
        key_at(bytes, at) == Some(key),
{
    lemma_auto_spec_u64_to_from_le_bytes();
    let rest = bytes.skip(at);
    let whole = bytes.subrange(at, at + 8 + key.len());
    assert(rest.subrange(0, 8) =~= whole.subrange(0, 8));
    assert(whole.subrange(0, 8) =~= spec_u64_to_le_bytes(key.len() as u64));
    assert(announced_length(rest) == key.len());
    assert(rest.subrange(8, 8int + key.len()) =~= key) by {
        assert forall|i: int| 0 <= i < key.len() implies rest.subrange(8, 8int + key.len())[i]
            == key[i] by {
            assert(rest[8 + i] == whole[8 + i]);
        }
    }
}

/// Whether every key of the command is short enough for its length to be written down.
pub open spec fn keys_fit<T>(command: CommandView<T>) -> bool {
    match command {
        CommandView::Broadcast { from, .. } => from.len() <= u64::MAX,
        CommandView::Direct { from, to, .. } => from.len() <= u64::MAX && to.len() <= u64::MAX,
        CommandView::Identify { from } => from.len() <= u64::MAX,
        CommandView::Ping => true,
        CommandView::Pong => true,
    }
}

/// What was written is read back: a frame, whatever stands behind it, decodes to the command
/// that it was made from, provided that the message's decoder reads exactly the bytes that its
/// encoder wrote and gives the message back.
pub proof fn law_decoding_undoes_encoding<T>(
    command: CommandView<T>,
    message: Seq<u8>,
    decoded: Option<(T, usize)>,
    tail: Seq<u8>,
)
    requires
        keys_fit(command),
        command.carries_message() ==> (decoded matches Some((inner, read)) && inner
            == command.message() && read == message.len()),
    ensures
        decoding(encoding(command.with_message(message)) + tail, decoded) == Ok::<
            CommandView<T>,
            DecodeError,
        >(command),
{
    lemma_auto_spec_u32_to_from_le_bytes();
    lemma_auto_spec_u64_to_from_le_bytes();
    let frame = encoding(command.with_message(message));
    let bytes = frame + tail;
    match command {
        CommandView::Broadcast { inner, from } => {
            assert(bytes.subrange(0, 4) =~= spec_u32_to_le_bytes(BROADCAST));
            let at = 4int + message.len();
            assert(bytes.subrange(at, at + 8 + from.len()) =~= byte_string(from));
            lemma_key_read_back(bytes, at, from);
        },
        CommandView::Direct { inner, from, to } => {
            assert(bytes.subrange(0, 4) =~= spec_u32_to_le_bytes(DIRECT));
            let at = 4int + message.len();
            assert(bytes.subrange(at, at + 8 + from.len()) =~= byte_string(from));
            lemma_key_read_back(bytes, at, from);
            let next = at + 8 + from.len();
            assert(bytes.subrange(next, next + 8 + to.len()) =~= byte_string(to));
            lemma_key_read_back(bytes, next, to);
        },
        CommandView::Identify { from } => {
            assert(bytes.subrange(0, 4) =~= spec_u32_to_le_bytes(IDENTIFY));
            assert(bytes.subrange(4, 12int + from.len()) =~= byte_string(from));
            lemma_key_read_back(bytes, 4, from);
        },
        CommandView::Ping => {
            assert(bytes.subrange(0, 4) =~= spec_u32_to_le_bytes(PING));
        },
        CommandView::Pong => {
            assert(bytes.subrange(0, 4) =~= spec_u32_to_le_bytes(PONG));
        },
    }
}

/// A key is read whatever stands behind it.
proof fn lemma_key_before_tail(bytes: Seq<u8>, tail: Seq<u8>, at: int)
    requires
        0 <= at,
        key_at(bytes, at) is Some,
    ensures
        key_at(bytes + tail, at) == key_at(bytes, at),
{
    let rest = bytes.skip(at);
    let longer = (bytes + tail).skip(at);
    assert(longer.subrange(0, 8) =~= rest.subrange(0, 8));
    let n = announced_length(rest);
    assert(longer.subrange(8, 8 + n) =~= rest.subrange(8, 8 + n));
}

/// Bytes behind a whole command do not matter.
pub proof fn law_trailing_bytes_are_ignored<T>(
    bytes: Seq<u8>,
    tail: Seq<u8>,
    message: Option<(T, usize)>,
)
    requires
        decoding(bytes, message) is Ok,
    ensures
        decoding(bytes + tail, message) == decoding(bytes, message),
{
    assert((bytes + tail).subrange(0, 4) =~= bytes.subrange(0, 4));
    match kind_of(bytes)->Ok_0 {
        FrameKind::Broadcast => {
            if let Some((_, read)) = message {
                lemma_key_before_tail(bytes, tail, MESSAGE_OFFSET + read);
            }
        },
        FrameKind::Direct => {
            if let Some((_, read)) = message {
                let at = MESSAGE_OFFSET + read;
                lemma_key_before_tail(bytes, tail, at);
                lemma_key_before_tail(bytes, tail, at + 8 + key_at(bytes, at)->0.len());
            }
        },
        FrameKind::Identify => {
            lemma_key_before_tail(bytes, tail, MESSAGE_OFFSET as int);
        },
        _ => {},
    }
}

} // verus!
