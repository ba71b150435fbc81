use w_network::{
    decode_command, frame_kind, serialize_command, Command, DecodeError, Encoded, FrameKind,
    NetworkError, PubKey, MESSAGE_OFFSET,
};

fn key(bytes: &[u8]) -> PubKey {
    PubKey::new(bytes.to_vec())
}

fn direct(message: Encoded) -> Command<Encoded> {
    Command::Direct {
        inner: message,
        from: key(&[7]),
        to: key(&[8, 9]),
    }
}

#[test]
fn broadcast_layout() {
    let command = Command::Broadcast {
        inner: Ok(vec![0xaa, 0xbb]),
        from: key(&[1, 2, 3]),
    };
    assert_eq!(
        serialize_command(&command).unwrap(),
        vec![0, 0, 0, 0, 0xaa, 0xbb, 3, 0, 0, 0, 0, 0, 0, 0, 1, 2, 3]
    );
}

#[test]
fn direct_layout() {
    assert_eq!(
        serialize_command(&direct(Ok(vec![0x55]))).unwrap(),
        vec![
            1, 0, 0, 0, 0x55, 1, 0, 0, 0, 0, 0, 0, 0, 7, 2, 0, 0, 0, 0, 0, 0, 0, 8, 9
        ]
    );
}

#[test]
fn short_layouts() {
    let identify: Command<Encoded> = Command::Identify { from: key(&[]) };
    assert_eq!(
        serialize_command(&identify).unwrap(),
        vec![2, 0, 0, 0, 0, 0, 0, 0, 0, 0, 0, 0]
    );
    assert_eq!(
        serialize_command(&Command::Ping).unwrap(),
        vec![3, 0, 0, 0]
    );
    assert_eq!(
        serialize_command(&Command::Pong).unwrap(),
        vec![4, 0, 0, 0]
    );
}

#[test]
fn layout_is_that_of_the_fields_in_order() {
    let message = bincode::serialize(&42u64).unwrap();
    let expected = bincode::serialize(&(1u32, 42u64, vec![7u8], vec![8u8, 9])).unwrap();
    assert_eq!(serialize_command(&direct(Ok(message))).unwrap(), expected);
}

#[test]
fn long_keys_have_long_lengths() {
    let long = vec![0x11u8; 300];
    let command: Command<Encoded> = Command::Identify { from: key(&long) };
    let frame = serialize_command(&command).unwrap();
    assert_eq!(frame.len(), 312);
    assert_eq!(&frame[..12], &[2, 0, 0, 0, 44, 1, 0, 0, 0, 0, 0, 0]);
    assert_eq!(
        decode_command::<u64>(&frame, None),
        Ok(Command::Identify { from: key(&long) })
    );
}

#[test]
fn refused_message_is_not_serialized() {
    let refused = || Err("too odd".to_string());
    assert_eq!(
        serialize_command(&direct(refused())),
        Err(NetworkError::FailedToSerialize {
            source: "too odd".to_string()
        })
    );
    let broadcast = Command::Broadcast {
        inner: refused(),
        from: key(&[1]),
    };
    assert_eq!(
        serialize_command(&broadcast),
        Err(NetworkError::FailedToSerialize {
            source: "too odd".to_string()
        })
    );
}

#[test]
fn kinds() {
    assert_eq!(frame_kind(&[0, 0, 0, 0]), Ok(FrameKind::Broadcast));
    assert_eq!(frame_kind(&[1, 0, 0, 0, 99]), Ok(FrameKind::Direct));
    assert_eq!(frame_kind(&[2, 0, 0, 0]), Ok(FrameKind::Identify));
    assert_eq!(frame_kind(&[3, 0, 0, 0]), Ok(FrameKind::Ping));
    assert_eq!(frame_kind(&[4, 0, 0, 0]), Ok(FrameKind::Pong));
    assert_eq!(
        frame_kind(&[5, 0, 0, 0]),
        Err(DecodeError::UnknownCommand(5))
    );
    assert_eq!(
        frame_kind(&[0, 1, 0, 0]),
        Err(DecodeError::UnknownCommand(256))
    );
    assert_eq!(frame_kind(&[3, 0, 0]), Err(DecodeError::Truncated));
    assert_eq!(frame_kind(&[]), Err(DecodeError::Truncated));
    assert!(FrameKind::Broadcast.carries_message());
    assert!(FrameKind::Direct.carries_message());
    assert!(!FrameKind::Identify.carries_message());
    assert!(!FrameKind::Ping.carries_message());
    assert!(!FrameKind::Pong.carries_message());
}

#[test]
fn what_was_written_is_read_back() {
    let message = bincode::serialize(&42u64).unwrap();
    let read = message.len();
    let mut frame = serialize_command(&direct(Ok(message))).unwrap();
    assert_eq!(MESSAGE_OFFSET, 4);
    let decoded: u64 = bincode::deserialize(&frame[MESSAGE_OFFSET..]).unwrap();
    let expected = Command::Direct {
        inner: 42u64,
        from: key(&[7]),
        to: key(&[8, 9]),
    };
    assert_eq!(
        decode_command(&frame, Some((decoded, read))),
        Ok(expected.clone())
    );
    frame.extend_from_slice(&[1, 2, 3]);
    assert_eq!(decode_command(&frame, Some((decoded, read))), Ok(expected));

    let broadcast = Command::Broadcast {
        inner: Ok(vec![]),
        from: key(&[5]),
    };
    let frame = serialize_command(&broadcast).unwrap();
    assert_eq!(
        decode_command(&frame, Some(("unit", 0))),
        Ok(Command::Broadcast {
            inner: "unit",
            from: key(&[5])
        })
    );
}

#[test]
fn every_cut_of_a_frame_is_truncated() {
    let frame = serialize_command(&direct(Ok(vec![0x55]))).unwrap();
    for n in 0..frame.len() {
        assert_eq!(
            decode_command(&frame[..n], Some((0x55u8, 1))),
            Err(DecodeError::Truncated)
        );
    }
    assert!(decode_command(&frame, Some((0x55u8, 1))).is_ok());
}

#[test]
fn bad_frames_are_refused() {
    let frame = serialize_command(&direct(Ok(vec![0x55]))).unwrap();
    assert_eq!(
        decode_command::<u8>(&frame, None),
        Err(DecodeError::BadMessage)
    );
    assert_eq!(
        decode_command(&frame, Some((0u8, usize::MAX))),
        Err(DecodeError::Truncated)
    );
    assert_eq!(
        decode_command::<u8>(&[9, 0, 0, 0], None),
        Err(DecodeError::UnknownCommand(9))
    );
    // A length that no frame can hold
    let huge = [2, 0, 0, 0, 255, 255, 255, 255, 255, 255, 255, 255, 1];
    assert_eq!(
        decode_command::<u8>(&huge, None),
        Err(DecodeError::Truncated)
    );
}
