//! What stands where in a frame, byte by byte, and what a frame is read as.

use vstd::bytes::{
    lemma_auto_spec_u32_to_from_le_bytes, lemma_auto_spec_u64_to_from_le_bytes,
    spec_u32_from_le_bytes, spec_u64_from_le_bytes,
};
use vstd::prelude::*;
use crate::command::{Command, CommandView};
use crate::error::NetworkError;
use crate::wire::{
    decoding, encoding, key_at, kind_of, serialized, DecodeError, Encoded, FrameKind,
};

verus! {

/// A command stands for its own fields.
pub proof fn law_commands_stand_for_themselves<T>(command: Command<T>)
    ensures
        match command {
            Command::Broadcast { inner, from } => command@ == (CommandView::Broadcast {
                inner,
                from: from@,
            }),
            Command::Direct { inner, from, to } => command@ == (CommandView::Direct {
                inner,
                from: from@,
                to: to@,
            }),
            Command::Identify { from } => command@ == (CommandView::<T>::Identify { from: from@ }),
            Command::Ping => command@ == CommandView::<T>::Ping,
            Command::Pong => command@ == CommandView::<T>::Pong,
        },
{
}

/// A direct message is laid out as the number 1, the message's own bytes, and the keys of its
/// sender and of its recipient, each behind its length; nothing stands between or behind them.
pub proof fn law_direct_frame(message: Vec<u8>, from: Seq<u8>, to: Seq<u8>)
    requires
        from.len() <= u64::MAX,
        to.len() <= u64::MAX,
    ensures
        serialized(CommandView::Direct { inner: Ok(message), from, to }) is Ok,
        ({
            let frame = serialized(CommandView::Direct { inner: Ok(message), from, to })->Ok_0;
            let a = 4int + message@.len();
            let b = a + 8 + from.len();
            &&& frame.len() == b + 8 + to.len()
            &&& spec_u32_from_le_bytes(frame.subrange(0, 4)) == 1
            &&& frame.subrange(4, a) == message@
            &&& spec_u64_from_le_bytes(frame.subrange(a, a + 8)) == from.len()
            &&& frame.subrange(a + 8, b) == from
            &&& spec_u64_from_le_bytes(frame.subrange(b, b + 8)) == to.len()
            &&& frame.subrange(b + 8, b + 8 + to.len()) == to
        }),
{
    lemma_auto_spec_u32_to_from_le_bytes();
    lemma_auto_spec_u64_to_from_le_bytes();
    let frame = serialized(CommandView::Direct { inner: Ok(message), from, to })->Ok_0;
    assert(frame == encoding(CommandView::Direct { inner: message@, from, to }));
    let a = 4int + message@.len();
    let b = a + 8 + from.len();
    assert(frame.subrange(0, 4) =~= vstd::bytes::spec_u32_to_le_bytes(1));
    assert(frame.subrange(4, a) =~= message@);
    assert(frame.subrange(a, a + 8) =~= vstd::bytes::spec_u64_to_le_bytes(from.len() as u64));
    assert(frame.subrange(a + 8, b) =~= from);
    assert(frame.subrange(b, b + 8) =~= vstd::bytes::spec_u64_to_le_bytes(to.len() as u64));
    assert(frame.subrange(b + 8, b + 8 + to.len()) =~= to);
}

/// A broadcast message is laid out as the number 0, the message's own bytes, and the key of its
/// sender behind its length; nothing stands between or behind them.
pub proof fn law_broadcast_frame(message: Vec<u8>, from: Seq<u8>)
    requires
        from.len() <= u64::MAX,
    ensures
        serialized(CommandView::Broadcast { inner: Ok(message), from }) is Ok,
        ({
            let frame = serialized(CommandView::Broadcast { inner: Ok(message), from })->Ok_0;
            let a = 4int + message@.len();
            &&& frame.len() == a + 8 + from.len()
            &&& spec_u32_from_le_bytes(frame.subrange(0, 4)) == 0
            &&& frame.subrange(4, a) == message@
            &&& spec_u64_from_le_bytes(frame.subrange(a, a + 8)) == from.len()
            &&& frame.subrange(a + 8, a + 8 + from.len()) == from
        }),
{
    lemma_auto_spec_u32_to_from_le_bytes();
    lemma_auto_spec_u64_to_from_le_bytes();
    let frame = serialized(CommandView::Broadcast { inner: Ok(message), from })->Ok_0;
    assert(frame == encoding(CommandView::Broadcast { inner: message@, from }));
    let a = 4int + message@.len();
    assert(frame.subrange(0, 4) =~= vstd::bytes::spec_u32_to_le_bytes(0));
    assert(frame.subrange(4, a) =~= message@);
    assert(frame.subrange(a, a + 8) =~= vstd::bytes::spec_u64_to_le_bytes(from.len() as u64));
    assert(frame.subrange(a + 8, a + 8 + from.len()) =~= from);
}

/// An identification is laid out as the number 2 and the key behind its length; a ping is the
/// number 3 and a pong the number 4. All three can always be serialized.
pub proof fn law_short_frames(from: Seq<u8>)
    requires
        from.len() <= u64::MAX,
    ensures
        serialized(CommandView::Identify { from }) == Ok::<Seq<u8>, NetworkError>(
            encoding(CommandView::Identify { from }),
        ),
        ({
            let frame = encoding(CommandView::Identify { from });
            &&& frame.len() == 12 + from.len()
            &&& spec_u32_from_le_bytes(frame.subrange(0, 4)) == 2
            &&& spec_u64_from_le_bytes(frame.subrange(4, 12)) == from.len()
            &&& frame.subrange(12, 12int + from.len()) == from
        }),
        serialized(CommandView::Ping) == Ok::<Seq<u8>, NetworkError>(encoding(CommandView::Ping)),
        encoding(CommandView::Ping).len() == 4,
        spec_u32_from_le_bytes(encoding(CommandView::Ping)) == 3,
        serialized(CommandView::Pong) == Ok::<Seq<u8>, NetworkError>(encoding(CommandView::Pong)),
        encoding(CommandView::Pong).len() == 4,
        spec_u32_from_le_bytes(encoding(CommandView::Pong)) == 4,
{
    lemma_auto_spec_u32_to_from_le_bytes();
    lemma_auto_spec_u64_to_from_le_bytes();
    let frame = encoding(CommandView::Identify { from });
    assert(frame.subrange(0, 4) =~= vstd::bytes::spec_u32_to_le_bytes(2));
    assert(frame.subrange(4, 12) =~= vstd::bytes::spec_u64_to_le_bytes(from.len() as u64));
    assert(frame.subrange(12, 12int + from.len()) =~= from);
    assert(encoding(CommandView::Ping) == vstd::bytes::spec_u32_to_le_bytes(3));
    assert(encoding(CommandView::Pong) == vstd::bytes::spec_u32_to_le_bytes(4));
}

/// A message that its encoder refused keeps its command from being serialized, with the
/// encoder's own reason; nothing else does.
pub proof fn law_only_refused_messages_fail(
    command: CommandView<Encoded>,
    source: String,
    from: Seq<u8>,
    to: Seq<u8>,
)
    ensures
        serialized(CommandView::Direct { inner: Err(source), from, to }) == Err::<
            Seq<u8>,
            NetworkError,
        >(NetworkError::FailedToSerialize { source }),
        serialized(CommandView::Broadcast { inner: Err(source), from }) == Err::<
            Seq<u8>,
            NetworkError,
        >(NetworkError::FailedToSerialize { source }),
        serialized(command) is Err <==> match command {
            CommandView::Broadcast { inner, .. } => inner is Err,
            CommandView::Direct { inner, .. } => inner is Err,
            _ => false,
        },
{
}

/// The first four bytes tell which command a frame holds: the numbers from 0 to 4 are the five
/// commands, any other number is none, and a frame without a number is cut off.
pub proof fn law_number_tells_the_command(bytes: Seq<u8>)
    ensures
        ({
            let number = spec_u32_from_le_bytes(bytes.subrange(0, 4));
            &&& bytes.len() < 4 ==> kind_of(bytes) == Err::<FrameKind, DecodeError>(
                DecodeError::Truncated,
            )
            &&& bytes.len() >= 4 && number == 0 ==> kind_of(bytes) == Ok::<FrameKind, DecodeError>(
                FrameKind::Broadcast,
            )
            &&& bytes.len() >= 4 && number == 1 ==> kind_of(bytes) == Ok::<FrameKind, DecodeError>(
                FrameKind::Direct,
            )
            &&& bytes.len() >= 4 && number == 2 ==> kind_of(bytes) == Ok::<FrameKind, DecodeError>(
                FrameKind::Identify,
            )
            &&& bytes.len() >= 4 && number == 3 ==> kind_of(bytes) == Ok::<FrameKind, DecodeError>(
                FrameKind::Ping,
            )
            &&& bytes.len() >= 4 && number == 4 ==> kind_of(bytes) == Ok::<FrameKind, DecodeError>(
                FrameKind::Pong,
            )
            &&& bytes.len() >= 4 && number > 4 ==> kind_of(bytes) == Err::<FrameKind, DecodeError>(
                DecodeError::UnknownCommand(number),
            )
        }),
{
}

/// A message stands in broadcasts and in direct messages, and in no other frame.
pub proof fn law_which_frames_carry_messages(kind: FrameKind)
    ensures
        kind.spec_carries_message() <==> (kind is Broadcast || kind is Direct),
{
}

/// A key is read from its length and the bytes behind it, exactly where all of them are there.
proof fn lemma_key_read(bytes: Seq<u8>, at: int)
    requires
        0 <= at,
    ensures
        at + 8 <= bytes.len() ==> ({
            let n = spec_u64_from_le_bytes(bytes.subrange(at, at + 8));
            &&& at + 8 + n <= bytes.len() ==> key_at(bytes, at) == Some(
                bytes.subrange(at + 8, at + 8 + n),
            )
            &&& at + 8 + n > bytes.len() ==> key_at(bytes, at) is None
        }),
        at + 8 > bytes.len() ==> key_at(bytes, at) is None,
{
    if at + 8 <= bytes.len() {
        let rest = bytes.skip(at);
        assert(rest.subrange(0, 8) =~= bytes.subrange(at, at + 8));
        let n = spec_u64_from_le_bytes(bytes.subrange(at, at + 8));
        if at + 8 + n <= bytes.len() {
            assert(rest.subrange(8, 8 + n) =~= bytes.subrange(at + 8, at + 8 + n));
        }
    }
}

/// A frame without a number, or with one that no command has, is refused for that, whatever its
/// message was taken for.
pub proof fn law_frames_without_command<T>(bytes: Seq<u8>, message: Option<(T, usize)>)
    ensures
        ({
            let number = spec_u32_from_le_bytes(bytes.subrange(0, 4));
            &&& bytes.len() < 4 ==> decoding(bytes, message) == Err::<CommandView<T>, DecodeError>(
                DecodeError::Truncated,
            )
            &&& bytes.len() >= 4 && number > 4 ==> decoding(bytes, message) == Err::<
                CommandView<T>,
                DecodeError,
            >(DecodeError::UnknownCommand(number))
        }),
{
}

/// Numbers 3 and 4 are a ping and a pong, whatever follows.
pub proof fn law_pings_and_pongs_are_read<T>(bytes: Seq<u8>, message: Option<(T, usize)>)
    requires
        bytes.len() >= 4,
    ensures
        spec_u32_from_le_bytes(bytes.subrange(0, 4)) == 3 ==> decoding(bytes, message) == Ok::<
            CommandView<T>,
            DecodeError,
        >(CommandView::Ping),
        spec_u32_from_le_bytes(bytes.subrange(0, 4)) == 4 ==> decoding(bytes, message) == Ok::<
            CommandView<T>,
            DecodeError,
        >(CommandView::Pong),
{
}

/// Number 2 is the identification of the node whose key follows, and cut off exactly where the
/// key is.
pub proof fn law_identifications_are_read<T>(bytes: Seq<u8>, message: Option<(T, usize)>)
    requires
        bytes.len() >= 4,
        spec_u32_from_le_bytes(bytes.subrange(0, 4)) == 2,
    ensures
        ({
            let n = spec_u64_from_le_bytes(bytes.subrange(4, 12));
            if bytes.len() >= 12 && 12 + n <= bytes.len() {
                decoding(bytes, message) == Ok::<CommandView<T>, DecodeError>(
                    CommandView::Identify { from: bytes.subrange(12, 12 + n) },
                )
            } else {
                decoding(bytes, message) == Err::<CommandView<T>, DecodeError>(
                    DecodeError::Truncated,
                )
            }
        }),
{
    lemma_key_read(bytes, 4);
}

/// Number 0 is a broadcast of the message that was decoded, from the node whose key follows the
/// message, and cut off exactly where the key is.
pub proof fn law_broadcasts_are_read<T>(bytes: Seq<u8>, inner: T, read: usize)
    requires
        bytes.len() >= 4,
        spec_u32_from_le_bytes(bytes.subrange(0, 4)) == 0,
    ensures
        decoding(bytes, None::<(T, usize)>) == Err::<CommandView<T>, DecodeError>(
            DecodeError::BadMessage,
        ),
        ({
            let a = 12int + read;
            let n = spec_u64_from_le_bytes(bytes.subrange(4int + read, a));
            if a <= bytes.len() && a + n <= bytes.len() {
                decoding(bytes, Some((inner, read))) == Ok::<CommandView<T>, DecodeError>(
                    CommandView::Broadcast { inner, from: bytes.subrange(a, a + n) },
                )
            } else {
                decoding(bytes, Some((inner, read))) == Err::<CommandView<T>, DecodeError>(
                    DecodeError::Truncated,
                )
            }
        }),
{
    lemma_key_read(bytes, 4int + read);
}

/// Number 1 is the message that was decoded, from the node whose key follows the message and for
/// the node whose key follows that, and cut off exactly where one of the keys is.
pub proof fn law_direct_messages_are_read<T>(bytes: Seq<u8>, inner: T, read: usize)
    requires
        bytes.len() >= 4,
        spec_u32_from_le_bytes(bytes.subrange(0, 4)) == 1,
    ensures
        decoding(bytes, None::<(T, usize)>) == Err::<CommandView<T>, DecodeError>(
            DecodeError::BadMessage,
        ),
        ({
            let a = 12int + read;
            let n = spec_u64_from_le_bytes(bytes.subrange(4int + read, a));
            let b = a + n + 8;
            let m = spec_u64_from_le_bytes(bytes.subrange(a + n, b));
            if a <= bytes.len() && b <= bytes.len() && b + m <= bytes.len() {
                decoding(bytes, Some((inner, read))) == Ok::<CommandView<T>, DecodeError>(
                    CommandView::Direct {
                        inner,
                        from: bytes.subrange(a, a + n),
                        to: bytes.subrange(b, b + m),
                    },
                )
            } else {
                decoding(bytes, Some((inner, read))) == Err::<CommandView<T>, DecodeError>(
                    DecodeError::Truncated,
                )
            }
        }),
{
    let a = 12int + read;
    lemma_key_read(bytes, 4int + read);
    let n = spec_u64_from_le_bytes(bytes.subrange(4int + read, a));
    lemma_key_read(bytes, a + n);
}

} // verus!
