use discord_presence::codec::{FrameError, Message, OpCode};

fn frame(op: u32, body: &[u8]) -> Vec<u8> {
    let mut v = Vec::new();
    v.extend_from_slice(&op.to_le_bytes());
    v.extend_from_slice(&(body.len() as u32).to_le_bytes());
    v.extend_from_slice(body);
    v
}

#[test]
fn encode_lays_out_opcode_length_and_payload() {
    let m = Message::new(OpCode::Frame, "{\"a\":1}".to_string());
    let bytes = m.encode().unwrap();
    assert_eq!(bytes, frame(1, b"{\"a\":1}"));
    assert_eq!(&bytes[0..8], &[1, 0, 0, 0, 7, 0, 0, 0]);
}

#[test]
fn round_trip_every_opcode_with_multibyte_text() {
    let ops = [OpCode::Handshake, OpCode::Frame, OpCode::Close, OpCode::Ping, OpCode::Pong];
    for op in ops {
        let m = Message::new(op, "{\"state\":\"caf\u{e9} \u{1f600} \u{65e5}\u{672c}\"}".to_string());
        let bytes = m.encode().unwrap();
        let (back, used) = Message::decode(&bytes).unwrap();
        assert_eq!(back, m);
        assert_eq!(used, bytes.len());
    }
}

#[test]
fn decode_leaves_trailing_bytes() {
    let mut bytes = frame(3, b"[]");
    bytes.extend_from_slice(&[9, 9, 9]);
    let (m, used) = Message::decode(&bytes).unwrap();
    assert_eq!(m.opcode, OpCode::Ping);
    assert_eq!(m.payload, "[]");
    assert_eq!(used, 10);
}

#[test]
fn decode_incomplete_header_and_body() {
    assert_eq!(Message::decode(&[]), Err(FrameError::Incomplete));
    assert_eq!(Message::decode(&[1, 0, 0, 0, 2, 0, 0]), Err(FrameError::Incomplete));
    let bytes = frame(1, b"{}");
    assert_eq!(Message::decode(&bytes[..9]), Err(FrameError::Incomplete));
}

#[test]
fn decode_unknown_opcode_is_malformed() {
    let bytes = frame(7, b"{}");
    assert_eq!(Message::decode(&bytes), Err(FrameError::Malformed(10)));
}

#[test]
fn decode_invalid_json_is_malformed() {
    let bytes = frame(1, b"{not json");
    assert_eq!(Message::decode(&bytes), Err(FrameError::Malformed(17)));
}

#[test]
fn decode_invalid_utf8_is_malformed() {
    let bytes = frame(1, &[0x22, 0xff, 0x22]);
    assert_eq!(Message::decode(&bytes), Err(FrameError::Malformed(11)));
}

#[test]
fn opcode_numbers() {
    assert_eq!(OpCode::Pong.number(), 4);
    assert_eq!(OpCode::from_number(2), Some(OpCode::Close));
    assert_eq!(OpCode::from_number(5), None);
}
