use framed_serial::slcan::{SlCanError, SlCanFrame, SlCanMessage, SLCAN_ACK, SLCAN_NACK};

fn text(frame: &SlCanFrame) -> &[u8] {
    frame.as_bytes()
}

#[test]
fn standard_data_frame_without_data() {
    let frame = SlCanFrame::try_create("t1230").unwrap();
    assert_eq!(text(&frame), b"t1230");
}

#[test]
fn standard_data_frame_with_three_bytes() {
    let frame = SlCanFrame::try_create("t4563112233").unwrap();
    assert_eq!(text(&frame), b"t4563112233");
}

#[test]
fn extended_data_frame() {
    let frame = SlCanFrame::try_create("T12ABCDEF2AA55").unwrap();
    assert_eq!(text(&frame), b"T12ABCDEF2AA55");
}

#[test]
fn remote_frames() {
    assert_eq!(text(&SlCanFrame::try_create("r1230").unwrap()), b"r1230");
    assert_eq!(text(&SlCanFrame::try_create("R12ABCDEF0").unwrap()), b"R12ABCDEF0");
}

#[test]
fn open_and_close_commands_are_accepted_as_text() {
    assert_eq!(text(&SlCanFrame::try_create("O").unwrap()), b"O");
    assert_eq!(text(&SlCanFrame::try_create("C").unwrap()), b"C");
}

#[test]
fn empty_text_is_refused() {
    assert!(matches!(SlCanFrame::try_create(""), Err(SlCanError::EmptyMessage)));
}

#[test]
fn bad_start_of_frame_is_reported_with_its_byte() {
    assert!(matches!(SlCanFrame::try_create("x123"), Err(SlCanError::BadSof(b'x'))));
    assert!(matches!(SlCanFrame::try_create("S8"), Err(SlCanError::BadSof(b'S'))));
    assert!(matches!(SlCanFrame::try_create("\r"), Err(SlCanError::BadSof(0x0D))));
}

#[test]
fn open_and_close_frames() {
    assert_eq!(text(&SlCanFrame::open()), b"O");
    assert_eq!(text(&SlCanFrame::close()), b"C");
}

#[test]
fn every_supported_baudrate() {
    let rates: [(u32, &[u8]); 9] = [
        (10000, b"S0"),
        (20000, b"S1"),
        (50000, b"S2"),
        (100000, b"S3"),
        (125000, b"S4"),
        (250000, b"S5"),
        (500000, b"S6"),
        (800000, b"S7"),
        (1000000, b"S8"),
    ];
    for (rate, expected) in rates {
        assert_eq!(text(&SlCanFrame::baudrate(rate).unwrap()), expected);
    }
}

#[test]
fn unsupported_baudrates_are_refused() {
    assert!(matches!(SlCanFrame::baudrate(115200), Err(SlCanError::InvalidBaudrate(115200))));
    assert!(matches!(SlCanFrame::baudrate(0), Err(SlCanError::InvalidBaudrate(0))));
    assert!(matches!(SlCanFrame::baudrate(1000001), Err(SlCanError::InvalidBaudrate(1000001))));
}

#[test]
fn data_frame_message_converts_to_its_frame() {
    let frame = SlCanFrame::try_create("t1230").unwrap();
    let converted = SlCanFrame::try_from(SlCanMessage::Frame(frame)).unwrap();
    assert_eq!(text(&converted), b"t1230");
}

#[test]
fn replies_do_not_convert_to_frames() {
    assert!(matches!(SlCanFrame::try_from(SlCanMessage::Ack), Err(SlCanError::NotADataFrame)));
    assert!(matches!(SlCanFrame::try_from(SlCanMessage::Nack), Err(SlCanError::NotADataFrame)));
}

#[test]
fn cloned_frame_keeps_its_text() {
    let frame = SlCanFrame::try_create("t123411223344").unwrap();
    let copy = frame.clone();
    assert_eq!(text(&copy), text(&frame));
}

#[test]
fn reply_bytes_are_cr_and_bel() {
    assert_eq!(SLCAN_ACK, b'\r');
    assert_eq!(SLCAN_NACK, 0x07);
}
