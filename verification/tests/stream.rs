use luminous::headless_helper::{answer, selection_from, Selection, Selector};
use luminous::stream_message::error::Error;
use luminous::stream_message::{
    decode_frame, encode_frame, server_sock, ByteStream, FrameRead, Request, Response,
    SocketMessage, SyncCodec,
};
use luminous::utils::{join, runtime_dir};

struct Word(Vec<u8>);

impl SyncCodec for Word {
    fn read_from(body: &Vec<u8>) -> Result<Self, Error> {
        if body.is_empty() {
            Err(Error::Serialization("empty".to_string()))
        } else {
            Ok(Word(body.clone()))
        }
    }

    fn write_to(&self) -> Result<Vec<u8>, Error> {
        Ok(self.0.clone())
    }
}

#[test]
fn headless_broker_busy() {
    let mut selector = Selector::new();
    assert!(selector.handle_client(1));
    assert!(!selector.handle_client(2));
    assert_eq!(answer(None), Response::Busy);
    assert_eq!(selector, Selector { active: Some(1) });
    assert!(!selector.handle_client(1));
    let told = selector.finish(Selection::Accept(0));
    assert_eq!(told, Some((1, Response::Success { index: 0 })));
    assert_eq!(selector, Selector { active: None });
    assert!(selector.handle_client(2));
    assert_eq!(selector.finish(Selection::Reject), Some((2, Response::Cancel)));
    assert_eq!(selector.finish(Selection::Reject), None);
}

#[test]
fn answers_for_selections() {
    assert_eq!(answer(Some(Selection::Accept(3))), Response::Success { index: 3 });
    assert_eq!(answer(Some(Selection::Reject)), Response::Cancel);
    assert_eq!(answer(None), Response::Busy);
    assert_eq!(selection_from(Some(4)), Selection::Accept(4));
    assert_eq!(selection_from(Some(0)), Selection::Accept(0));
    assert_eq!(selection_from(None), Selection::Reject);
    assert_eq!(selection_from(Some(u32::MAX as usize)), Selection::Accept(u32::MAX));
    assert_eq!(selection_from(Some(u32::MAX as usize + 1)), Selection::Reject);
}

#[test]
fn frames_are_length_prefixed_little_endian() {
    let body = b"{\"type\":\"busy\"}".to_vec();
    let frame = encode_frame(&body).ok().unwrap();
    assert_eq!(&frame[..4], &[15, 0, 0, 0]);
    assert_eq!(&frame[4..], &body[..]);
    assert_eq!(encode_frame(&Vec::new()).ok().unwrap(), vec![0, 0, 0, 0]);
    let long = vec![7u8; 0x0102_03];
    let frame = encode_frame(&long).ok().unwrap();
    assert_eq!(&frame[..4], &[0x03, 0x02, 0x01, 0x00]);
    assert_eq!(frame.len(), 4 + 0x0102_03);
}

#[test]
fn frames_read_back() {
    let mut bytes = encode_frame(&b"one".to_vec()).ok().unwrap();
    bytes.extend(encode_frame(&Vec::new()).ok().unwrap());
    bytes.extend(encode_frame(&b"three".to_vec()).ok().unwrap());
    let FrameRead::Frame { body, rest } = decode_frame(&bytes, 0) else { panic!("no frame") };
    assert_eq!(body, b"one");
    assert_eq!(rest, 7);
    let FrameRead::Frame { body, rest } = decode_frame(&bytes, rest) else { panic!("no frame") };
    assert!(body.is_empty());
    assert_eq!(rest, 11);
    let FrameRead::Frame { body, rest } = decode_frame(&bytes, rest) else { panic!("no frame") };
    assert_eq!(body, b"three");
    assert_eq!(rest, bytes.len());
    assert!(matches!(decode_frame(&bytes, rest), FrameRead::Failed(Error::Eof)));
}

#[test]
fn short_streams() {
    assert!(matches!(decode_frame(&Vec::new(), 0), FrameRead::Failed(Error::Eof)));
    assert!(matches!(decode_frame(&vec![1, 0, 0], 0), FrameRead::Failed(Error::Eof)));
    assert!(matches!(decode_frame(&vec![1, 0, 0, 0], 0), FrameRead::Failed(Error::Io(_))));
    assert!(matches!(
        decode_frame(&vec![0xff, 0xff, 0xff, 0xff, 1, 2], 0),
        FrameRead::Failed(Error::Io(_))
    ));
    assert!(matches!(decode_frame(&vec![0, 1, 0, 0, 9], 0), FrameRead::Failed(Error::Io(_))));
    let FrameRead::Frame { body, rest } = decode_frame(&vec![9, 1, 0, 0, 0, 42], 1) else {
        panic!("no frame")
    };
    assert_eq!(body, vec![42]);
    assert_eq!(rest, 6);
}

#[test]
fn messages_over_a_byte_stream() {
    let mut writer = ByteStream::new(Vec::new());
    assert!(writer.write_msg(Word(b"hello".to_vec())).is_ok());
    assert!(writer.write_msg(Word(b"you".to_vec())).is_ok());
    assert!(writer.write_msg(Word(Vec::new())).is_ok());
    assert_eq!(writer.outgoing.len(), 4 + 5 + 4 + 3 + 4);
    let mut reader = ByteStream::new(writer.outgoing);
    let first: Word = reader.read_msg().ok().unwrap();
    assert_eq!(first.0, b"hello");
    let second: Word = reader.read_msg().ok().unwrap();
    assert_eq!(second.0, b"you");
    let third: Result<Word, Error> = reader.read_msg();
    assert!(matches!(third, Err(Error::Serialization(_))));
    let end: Result<Word, Error> = reader.read_msg();
    assert!(matches!(end, Err(Error::Eof)));
    assert_eq!(reader.read, reader.incoming.len());
}

#[test]
fn byte_stream_frames() {
    let mut stream = ByteStream::new(vec![2, 0, 0, 0, 8, 9, 5, 0, 0, 0, 1]);
    assert_eq!(stream.read_frame().ok(), Some(vec![8, 9]));
    assert_eq!(stream.read, 6);
    assert!(matches!(stream.read_frame(), Err(Error::Io(_))));
    assert_eq!(stream.read, 6);
    assert!(stream.write_frame(&vec![1]).is_ok());
    assert_eq!(stream.outgoing, vec![1, 0, 0, 0, 1]);
}

#[test]
fn error_texts() {
    assert_eq!(Error::Eof.message(), "EOF");
    assert_eq!(Error::Io("broken pipe".to_string()).message(), "i/o error: broken pipe");
    assert_eq!(
        Error::Serialization("expected value".to_string()).message(),
        "serialization error: expected value"
    );
    assert!(matches!(Error::header(true, "x".to_string()), Error::Eof));
    assert!(matches!(Error::header(false, "x".to_string()), Error::Io(text) if text == "x"));
    assert!(matches!(Error::io("y".to_string()), Error::Io(text) if text == "y"));
    assert!(matches!(Error::serialization("z".to_string()), Error::Serialization(text) if text == "z"));
}

#[test]
fn socket_and_runtime_paths() {
    assert_eq!(server_sock(Some("/run/user/1000".to_string())), "/run/user/1000/luminus_selector.sock");
    assert_eq!(server_sock(None), "/tmp/luminus_selector.sock");
    assert_eq!(server_sock(Some("/run/".to_string())), "/run/luminus_selector.sock");
    assert_eq!(runtime_dir(None), "/tmp");
    assert_eq!(runtime_dir(Some("/x".to_string())), "/x");
    assert_eq!(join("".to_string(), "a"), "a");
    assert_eq!(join("/".to_string(), "a"), "/a");
    assert_eq!(join("/b".to_string(), "a"), "/b/a");
}

#[test]
fn request_lists_monitors() {
    let request = Request::ScreenShare { monitors: vec!["eDP-1".to_string(), "HDMI-A-1".to_string()] };
    let Request::ScreenShare { monitors } = request;
    assert_eq!(monitors.len(), 2);
}

#[test]
fn encoded_bodies_are_framed_and_errors_handed_on() {
    let mut stream = ByteStream::new(vec![9]);
    assert!(stream.write_encoded(Ok(vec![7, 8])).is_ok());
    assert_eq!(stream.outgoing, vec![2, 0, 0, 0, 7, 8]);
    let refused = stream.write_encoded(Err(Error::Serialization("no body".to_string())));
    assert!(matches!(refused, Err(Error::Serialization(text)) if text == "no body"));
    let broken = stream.write_encoded(Err(Error::Io("pipe".to_string())));
    assert!(matches!(broken, Err(Error::Io(text)) if text == "pipe"));
    assert_eq!(stream.outgoing, vec![2, 0, 0, 0, 7, 8]);
    assert!(stream.write_encoded(Ok(Vec::new())).is_ok());
    assert_eq!(stream.outgoing, vec![2, 0, 0, 0, 7, 8, 0, 0, 0, 0]);
    assert_eq!(stream.incoming, vec![9]);
    assert_eq!(stream.read, 0);
}

#[test]
fn a_message_without_a_body_writes_nothing() {
    struct Mute;
    impl SyncCodec for Mute {
        fn read_from(_body: &Vec<u8>) -> Result<Self, Error> {
            Err(Error::Serialization("mute".to_string()))
        }

        fn write_to(&self) -> Result<Vec<u8>, Error> {
            Err(Error::Serialization("mute".to_string()))
        }
    }
    let mut stream = ByteStream::new(vec![0, 0, 0, 0]);
    assert!(matches!(stream.write_message(Mute), Err(Error::Serialization(_))));
    assert!(matches!(stream.write_msg(Mute), Err(Error::Serialization(_))));
    assert!(stream.outgoing.is_empty());
    let read: Result<Mute, Error> = stream.read_message();
    assert!(matches!(read, Err(Error::Serialization(_))));
    assert_eq!(stream.read, 4);
    let ended: Result<Mute, Error> = stream.read_msg();
    assert!(matches!(ended, Err(Error::Eof)));
    assert_eq!(stream.read, 4);
    let mut beyond = ByteStream { incoming: vec![1], read: 3, outgoing: Vec::new() };
    let lost: Result<Mute, Error> = beyond.read_message();
    assert!(matches!(lost, Err(Error::Eof)));
    assert_eq!(beyond.read, 3);
}
