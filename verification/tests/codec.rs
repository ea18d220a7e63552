use bytes::BytesMut;
use framed_serial::slcan::{SlCanCodec, SlCanFrame, SlCanMessage};

fn frame_text(message: Option<SlCanMessage>) -> Vec<u8> {
    match message {
        Some(SlCanMessage::Frame(frame)) => frame.as_bytes().to_vec(),
        other => panic!("expected a frame, got {:?}", other),
    }
}

#[test]
fn decode_waits_for_a_terminator() {
    let mut codec = SlCanCodec;
    let mut buf = BytesMut::from(&b"t123"[..]);
    assert!(codec.can_decode(&buf));
    assert!(codec.decode(&mut buf).unwrap().is_none());
    assert_eq!(&buf[..], b"t123");
}

#[test]
fn decode_empty_buffer() {
    let mut codec = SlCanCodec;
    let mut buf = BytesMut::new();
    assert!(codec.decode(&mut buf).unwrap().is_none());
    assert!(buf.is_empty());
}

#[test]
fn decode_ack_consumes_one_byte() {
    let mut codec = SlCanCodec;
    let mut buf = BytesMut::from(&b"\rt1230\r"[..]);
    assert!(matches!(codec.decode(&mut buf).unwrap(), Some(SlCanMessage::Ack)));
    assert_eq!(&buf[..], b"t1230\r");
}

#[test]
fn decode_nack_consumes_one_byte() {
    let mut codec = SlCanCodec;
    let mut buf = BytesMut::from(&b"\x07\r"[..]);
    assert!(matches!(codec.decode(&mut buf).unwrap(), Some(SlCanMessage::Nack)));
    assert_eq!(&buf[..], b"\r");
    assert!(matches!(codec.decode(&mut buf).unwrap(), Some(SlCanMessage::Ack)));
    assert!(buf.is_empty());
}

#[test]
fn decode_frame_keeps_the_carriage_return() {
    let mut codec = SlCanCodec;
    let mut buf = BytesMut::from(&b"t4563112233\rT12ABCDEF2AA55"[..]);
    let message = codec.decode(&mut buf).unwrap();
    assert_eq!(frame_text(message), b"t4563112233\r");
    assert_eq!(&buf[..], b"T12ABCDEF2AA55");
}

#[test]
fn decode_frame_ended_by_nack_byte() {
    let mut codec = SlCanCodec;
    let mut buf = BytesMut::from(&b"r1230\x07rest"[..]);
    let message = codec.decode(&mut buf).unwrap();
    assert_eq!(frame_text(message), b"r1230\x07");
    assert_eq!(&buf[..], b"rest");
}

#[test]
fn decode_drops_a_message_with_a_bad_start() {
    let mut codec = SlCanCodec;
    let mut buf = BytesMut::from(&b"z1230\rt1\r"[..]);
    assert!(codec.decode(&mut buf).unwrap().is_none());
    assert_eq!(&buf[..], b"t1\r");
}

#[test]
fn decode_drops_a_message_that_is_not_utf8() {
    let mut codec = SlCanCodec;
    let mut buf = BytesMut::from(&b"t1\xff\xfe\rO\r"[..]);
    assert!(codec.can_decode(&buf));
    assert!(codec.decode(&mut buf).unwrap().is_none());
    assert_eq!(&buf[..], b"O\r");
    let message = codec.decode(&mut buf).unwrap();
    assert_eq!(frame_text(message), b"O\r");
}

#[test]
fn decode_drops_a_non_utf8_message_with_a_high_first_byte() {
    let mut codec = SlCanCodec;
    let mut buf = BytesMut::from(&b"\xff\r"[..]);
    assert!(codec.can_decode(&buf));
    assert!(codec.decode(&mut buf).unwrap().is_none());
    assert!(buf.is_empty());
}

#[test]
fn multi_byte_first_character_cannot_be_decoded() {
    let codec = SlCanCodec;
    let buf = BytesMut::from("\u{e9}t\r");
    assert!(!codec.can_decode(&buf));
    let later = BytesMut::from("t1\r\u{e9}\r");
    assert!(codec.can_decode(&later));
}

#[test]
fn encode_appends_the_frame_and_a_carriage_return() {
    let mut codec = SlCanCodec;
    let mut buf = BytesMut::from(&b"O\r"[..]);
    let frame = SlCanFrame::try_create("t123411223344").unwrap();
    codec.encode(frame, &mut buf).unwrap();
    assert_eq!(&buf[..], b"O\rt123411223344\r");
}

#[test]
fn encode_baudrate_command() {
    let mut codec = SlCanCodec;
    let mut buf = BytesMut::new();
    codec.encode(SlCanFrame::baudrate(1000000).unwrap(), &mut buf).unwrap();
    assert_eq!(&buf[..], b"S8\r");
}

#[test]
fn encoded_frame_decodes_back() {
    let mut codec = SlCanCodec;
    let mut buf = BytesMut::new();
    codec.encode(SlCanFrame::try_create("T12ABCDEF2AA55").unwrap(), &mut buf).unwrap();
    buf.extend_from_slice(b"\x07");
    let message = codec.decode(&mut buf).unwrap();
    assert_eq!(frame_text(message), b"T12ABCDEF2AA55\r");
    assert!(matches!(codec.decode(&mut buf).unwrap(), Some(SlCanMessage::Nack)));
}

#[test]
fn encoded_baudrate_command_is_not_read_back_as_a_frame() {
    let mut codec = SlCanCodec;
    let mut buf = BytesMut::new();
    codec.encode(SlCanFrame::baudrate(10000).unwrap(), &mut buf).unwrap();
    assert!(codec.decode(&mut buf).unwrap().is_none());
    assert!(buf.is_empty());
}
