use cosmic_kvm::frame::{
    body_length, decode_frame, encode_frame, FrameError, ReceiveAction, ReceiveError, ReceiveEvent,
    Receiver, HEADER_LEN,
};

const MAGIC: [u8; 4] = [9, 8, 7, 6];

fn delivered(action: ReceiveAction) -> Vec<u8> {
    match action {
        ReceiveAction::Deliver(frame) => frame,
        other => panic!("no frame but {:?}", other),
    }
}

#[test]
fn a_frame_has_magic_length_and_body() {
    let frame = encode_frame(&MAGIC, &vec![1, 2, 3], 10).unwrap();
    assert_eq!(frame, vec![9, 8, 7, 6, 0, 0, 0, 3, 1, 2, 3]);
    assert_eq!(decode_frame(&MAGIC, &frame), Ok(vec![1, 2, 3]));
}

#[test]
fn lengths_are_big_endian() {
    assert_eq!(body_length(&vec![0, 0, 0, 0, 1, 2, 3, 4]), 0x0102_0304);
    assert_eq!(body_length(&vec![9, 9, 9, 9, 0xff, 0xff, 0xff, 0xff]), u32::MAX);
    let body = vec![5u8; 0x01_0203];
    let frame = encode_frame(&MAGIC, &body, usize::MAX).unwrap();
    assert_eq!(frame[4..8], [0, 1, 2, 3]);
    assert_eq!(decode_frame(&MAGIC, &frame), Ok(body));
}

#[test]
fn large_bodies_are_not_sent() {
    assert!(encode_frame(&MAGIC, &vec![0; 10], 10).is_ok());
    assert_eq!(encode_frame(&MAGIC, &vec![0; 11], 10), Err(FrameError::TooLarge(11)));
}

#[test]
fn broken_frames_are_refused() {
    let frame = encode_frame(&MAGIC, &vec![1, 2, 3], 10).unwrap();
    assert_eq!(decode_frame(&[0, 0, 0, 0], &frame), Err(FrameError::BadMagic));
    assert_eq!(decode_frame(&MAGIC, &frame[..10].to_vec()), Err(FrameError::BadLength));
    assert_eq!(decode_frame(&MAGIC, &frame[..7].to_vec()), Err(FrameError::BadLength));
    let mut longer = frame.clone();
    longer.push(0);
    assert_eq!(decode_frame(&MAGIC, &longer), Err(FrameError::BadLength));
}

/// Hands bytes to a receiver in pieces of at most `size`, each as its own poll if the
/// receiver is polled, and returns the frames that are delivered.
fn hand_in(receiver: &mut Receiver, stream: &[u8], size: usize) -> Vec<Vec<u8>> {
    let mut frames = Vec::new();
    let mut rest = stream;
    while !rest.is_empty() {
        let (wanted, polled) = match receiver.action() {
            ReceiveAction::AwaitReadable => match receiver.advance(ReceiveEvent::Readable) {
                ReceiveAction::TryRead(n) => (n, true),
                other => panic!("unexpected {:?}", other),
            },
            ReceiveAction::Read(n) => (n, false),
            other => panic!("unexpected {:?}", other),
        };
        let n = wanted.min(size).min(rest.len());
        match receiver.advance(ReceiveEvent::Read(rest[..n].to_vec())) {
            ReceiveAction::Deliver(frame) => frames.push(frame),
            ReceiveAction::TryRead(_) if polled => {
                let end = receiver.advance(ReceiveEvent::WouldBlock);
                assert!(matches!(end, ReceiveAction::Nothing));
            }
            ReceiveAction::Read(_) if !polled => {}
            other => panic!("unexpected {:?}", other),
        }
        rest = &rest[n..];
    }
    frames
}

#[test]
fn a_message_is_read_back() {
    let frame = encode_frame(&MAGIC, &vec![1, 2, 3], 10).unwrap();
    let mut receiver = Receiver::receive(10);
    assert!(matches!(receiver.action(), ReceiveAction::Read(HEADER_LEN)));
    let next = receiver.advance(ReceiveEvent::Read(frame[..8].to_vec()));
    assert!(matches!(next, ReceiveAction::Read(3)));
    let last = receiver.advance(ReceiveEvent::Read(frame[8..].to_vec()));
    assert_eq!(delivered(last), frame);
    assert!(matches!(receiver.action(), ReceiveAction::Read(HEADER_LEN)));
}

#[test]
fn an_empty_message_is_read_back() {
    let frame = encode_frame(&MAGIC, &vec![], 10).unwrap();
    let mut receiver = Receiver::receive(10);
    assert_eq!(delivered(receiver.advance(ReceiveEvent::Read(frame.clone()))), frame);
}

#[test]
fn messages_arrive_in_any_pieces() {
    let bodies = [vec![1u8, 2, 3], vec![], vec![7u8; 10], vec![9u8]];
    let frames: Vec<Vec<u8>> =
        bodies.iter().map(|body| encode_frame(&MAGIC, body, 10).unwrap()).collect();
    let stream = frames.concat();
    for size in 1..=stream.len() {
        let mut polled = Receiver::try_receive(10);
        let mut waiting = Receiver::receive(10);
        assert_eq!(hand_in(&mut polled, &stream, size), frames);
        assert_eq!(hand_in(&mut waiting, &stream, size), frames);
    }
    let mut cut_off = Receiver::try_receive(10);
    assert_eq!(hand_in(&mut cut_off, &stream[..stream.len() - 1], 5), frames[..3].to_vec());
}

#[test]
fn a_poll_does_not_wait_for_the_rest() {
    let frame = encode_frame(&MAGIC, &vec![1, 2], 10).unwrap();
    for arrived in 1..10 {
        let mut receiver = Receiver::try_receive(10);
        assert_eq!(hand_in(&mut receiver, &frame[..arrived], 8), Vec::<Vec<u8>>::new());
        for _ in 0..3 {
            assert!(matches!(receiver.action(), ReceiveAction::AwaitReadable));
            assert!(matches!(receiver.advance(ReceiveEvent::TimedOut), ReceiveAction::Nothing));
        }
        let next = receiver.advance(ReceiveEvent::Readable);
        let missing = if arrived < 8 { 8 - arrived } else { 10 - arrived };
        match next {
            ReceiveAction::TryRead(n) => assert_eq!(n, missing),
            other => panic!("unexpected {:?}", other),
        }
        receiver.advance(ReceiveEvent::WouldBlock);
        assert_eq!(hand_in(&mut receiver, &frame[arrived..], 8), vec![frame.clone()]);
    }
}

#[test]
fn a_poll_can_find_nothing() {
    let mut receiver = Receiver::try_receive(10);
    assert!(matches!(receiver.advance(ReceiveEvent::TimedOut), ReceiveAction::Nothing));
    assert!(matches!(receiver.advance(ReceiveEvent::Readable), ReceiveAction::TryRead(8)));
    assert!(matches!(receiver.advance(ReceiveEvent::WouldBlock), ReceiveAction::Nothing));
    assert!(matches!(receiver.action(), ReceiveAction::AwaitReadable));
}

#[test]
fn a_closed_connection_is_noticed() {
    let mut receiver = Receiver::try_receive(10);
    receiver.advance(ReceiveEvent::Readable);
    let next = receiver.advance(ReceiveEvent::Read(vec![]));
    assert!(matches!(next, ReceiveAction::Fail(ReceiveError::Closed)));
    assert!(matches!(receiver.action(), ReceiveAction::Fail(ReceiveError::Closed)));
    assert_eq!(ReceiveError::Closed.text(), Some("Connection closed by peer".to_string()));
    let mut cut_short = Receiver::try_receive(10);
    assert!(hand_in(&mut cut_short, &[9, 8, 7], 8).is_empty());
    cut_short.advance(ReceiveEvent::Readable);
    let next = cut_short.advance(ReceiveEvent::Read(vec![]));
    assert!(matches!(next, ReceiveAction::Fail(ReceiveError::Connection)));
    let mut waiting = Receiver::receive(10);
    let next = waiting.advance(ReceiveEvent::Read(vec![]));
    assert!(matches!(next, ReceiveAction::Fail(ReceiveError::Connection)));
}

#[test]
fn a_failed_connection_is_noticed() {
    for mut receiver in [Receiver::receive(10), Receiver::try_receive(10)] {
        let next = receiver.advance(ReceiveEvent::Failed);
        assert!(matches!(next, ReceiveAction::Fail(ReceiveError::Connection)));
    }
    assert_eq!(ReceiveError::Connection.text(), None);
}

#[test]
fn an_oversized_message_is_refused_by_its_header() {
    let mut receiver = Receiver::receive(10);
    let next = receiver.advance(ReceiveEvent::Read(vec![9, 8, 7, 6, 0, 0, 1]));
    assert!(matches!(next, ReceiveAction::Read(1)));
    let next = receiver.advance(ReceiveEvent::Read(vec![0]));
    assert!(matches!(next, ReceiveAction::Fail(ReceiveError::TooLarge(256))));
    let later = receiver.advance(ReceiveEvent::Read(vec![1]));
    assert!(matches!(later, ReceiveAction::Fail(ReceiveError::TooLarge(256))));
    assert_eq!(
        ReceiveError::TooLarge(256).text(),
        Some("Message too large: 256 bytes".to_string())
    );
}

#[test]
fn more_than_was_asked_for_is_asked_for_again() {
    let mut receiver = Receiver::receive(10);
    let next = receiver.advance(ReceiveEvent::Read(vec![0; 9]));
    assert!(matches!(next, ReceiveAction::Read(8)));
}
