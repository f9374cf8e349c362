use furuyoni_lib::net::connection::read::{parse_outcome, ConnectionClosed};
use furuyoni_lib::net::frames::{encode_frame, frame_text, get_line, InvalidMessage, ParseError, WithRequestId};
use furuyoni_lib::net::requester::RequestError;
use furuyoni_lib::net::message_sender::MessageSendError;
use furuyoni_lib::net::message_receiver::RecvError;

#[test]
fn get_line_reads_first_line() {
    let src = b"ab\r\ncd\r\n";
    let mut pos = 0usize;
    assert_eq!(get_line(src, &mut pos), Ok(&b"ab"[..]));
    assert_eq!(pos, 4);
    assert_eq!(get_line(src, &mut pos), Ok(&b"cd"[..]));
    assert_eq!(pos, 8);
    assert_eq!(get_line(src, &mut pos), Err(ParseError::Incomplete));
    assert_eq!(pos, 8);
}

#[test]
fn get_line_incomplete() {
    let mut pos = 0usize;
    assert_eq!(get_line(b"", &mut pos), Err(ParseError::Incomplete));
    assert_eq!(get_line(b"\r", &mut pos), Err(ParseError::Incomplete));
    assert_eq!(get_line(b"abc\r", &mut pos), Err(ParseError::Incomplete));
    assert_eq!(get_line(b"a\nb\r", &mut pos), Err(ParseError::Incomplete));
    assert_eq!(pos, 0);
}

#[test]
fn get_line_empty_line() {
    let mut pos = 0usize;
    assert_eq!(get_line(b"\r\nx", &mut pos), Ok(&b""[..]));
    assert_eq!(pos, 2);
}

#[test]
fn get_line_position_past_end() {
    let mut pos = 10usize;
    assert_eq!(get_line(b"ab\r\n", &mut pos), Err(ParseError::Incomplete));
    assert_eq!(pos, 10);
}

#[test]
fn frame_roundtrip() {
    let text = "{\"GameMessage\":{\"Request\":\"Ack\"}}";
    let bytes = encode_frame(text);
    assert_eq!(&bytes[bytes.len() - 2..], b"\r\n");
    let mut pos = 0usize;
    assert_eq!(frame_text(&bytes, &mut pos).unwrap(), text);
    assert_eq!(pos, bytes.len());
}

#[test]
fn frame_text_non_ascii() {
    let text = "유리나 ✓";
    let bytes = encode_frame(text);
    let mut pos = 0usize;
    assert_eq!(frame_text(&bytes, &mut pos).unwrap(), text);
}

#[test]
fn frame_text_invalid_utf8() {
    let bytes = [0xffu8, 0xfe, b'\r', b'\n'];
    let mut pos = 0usize;
    match frame_text(&bytes, &mut pos) {
        Err(ParseError::InvalidMessage(InvalidMessage { err_str })) => assert!(!err_str.is_empty()),
        other => panic!("unexpected {:?}", other),
    }
    assert_eq!(pos, 4);
}

#[test]
fn with_request_id() {
    let m = WithRequestId::new(7, "data");
    assert_eq!(m.request_id, 7);
    assert_eq!(m.try_get(7), Some("data"));
    assert_eq!(WithRequestId::new(7, 1u8).try_get(8), None);
}

#[test]
fn parse_outcomes() {
    assert_eq!(parse_outcome::<u8>(Ok(3)), Ok(Some(3)));
    assert_eq!(parse_outcome::<u8>(Err(ParseError::Incomplete)), Ok(None));
    let e = parse_outcome::<u8>(Err(ParseError::InvalidMessage(InvalidMessage::from("bad".to_string()))))
        .unwrap_err();
    assert_eq!(e.error_str(), "bad");
}

#[test]
fn connection_closed() {
    assert!(ConnectionClosed::after_end_of_stream(0).is_clean_shutdown());
    assert!(!ConnectionClosed::after_end_of_stream(3).is_clean_shutdown());
}

#[test]
fn request_error_from() {
    assert_eq!(RequestError::from(MessageSendError::ChannelClosed), RequestError::SenderError(MessageSendError::ChannelClosed));
    assert_eq!(RequestError::from(RecvError::ChannelClosed), RequestError::ReceiverError(RecvError::ChannelClosed));
}

#[test]
fn frame_roundtrip_with_following_bytes() {
    let text = "{\"Ack\":null}";
    let mut bytes = encode_frame(text);
    let frame_len = bytes.len();
    bytes.extend_from_slice(b"{\"next\"");
    let mut pos = 0usize;
    assert_eq!(frame_text(&bytes, &mut pos).unwrap(), text);
    assert_eq!(pos, frame_len);
    assert_eq!(frame_text(&bytes, &mut pos), Err(ParseError::Incomplete));
    assert_eq!(pos, frame_len);
}
