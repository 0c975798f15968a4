use g930x::events::{G930KeyEvent, G930KeyEventTypes, G930Keys};
use g930x::packet_parser::{DecodeError, PacketParser};

fn packet_with_marker(len: usize, high: u8, low: u8) -> Vec<u8> {
    let mut p = vec![0xAAu8; len];
    p[65] = high;
    p[66] = low;
    p
}

fn parse(bytes: &[u8]) -> Result<G930KeyEvent, DecodeError> {
    PacketParser::new().parse(bytes)
}

#[test]
fn new_event_keeps_fields() {
    let e = G930KeyEvent::new(G930Keys::G3, G930KeyEventTypes::KeyUp);
    assert_eq!(e.key, G930Keys::G3);
    assert_eq!(e.type_, G930KeyEventTypes::KeyUp);
}

#[test]
fn marker_400c_is_g1_pressed() {
    let p = packet_with_marker(67, 0x40, 0x0C);
    assert_eq!(parse(&p), Ok(G930KeyEvent::new(G930Keys::G1, G930KeyEventTypes::KeyDown)));
}

#[test]
fn marker_000c_is_unknown_released() {
    let p = packet_with_marker(67, 0x00, 0x0C);
    assert_eq!(parse(&p), Ok(G930KeyEvent::new(G930Keys::UNKNOWN, G930KeyEventTypes::KeyUp)));
}

#[test]
fn marker_800c_is_g2_pressed() {
    let p = packet_with_marker(67, 0x80, 0x0C);
    assert_eq!(parse(&p), Ok(G930KeyEvent::new(G930Keys::G2, G930KeyEventTypes::KeyDown)));
}

#[test]
fn marker_000d_is_g3_pressed() {
    let p = packet_with_marker(67, 0x00, 0x0D);
    assert_eq!(parse(&p), Ok(G930KeyEvent::new(G930Keys::G3, G930KeyEventTypes::KeyDown)));
}

#[test]
fn unknown_marker_is_reported() {
    let p = packet_with_marker(67, 0x12, 0x34);
    assert_eq!(parse(&p), Err(DecodeError::UnknownMarker { marker: 0x1234 }));
    let p = packet_with_marker(67, 0x0C, 0x00);
    assert_eq!(parse(&p), Err(DecodeError::UnknownMarker { marker: 0x0C00 }));
    let p = packet_with_marker(67, 0xFF, 0xFF);
    assert_eq!(parse(&p), Err(DecodeError::UnknownMarker { marker: 0xFFFF }));
}

#[test]
fn marker_sits_at_fixed_offset_in_longer_packet() {
    let mut p = packet_with_marker(69, 0x80, 0x0C);
    p[67] = 0x00;
    p[68] = 0x0D;
    assert_eq!(parse(&p), Ok(G930KeyEvent::new(G930Keys::G2, G930KeyEventTypes::KeyDown)));
}

#[test]
fn short_packets_are_rejected() {
    assert_eq!(parse(&[]), Err(DecodeError::TooShort { len: 0 }));
    assert_eq!(parse(&[0u8; 10]), Err(DecodeError::TooShort { len: 10 }));
    assert_eq!(parse(&[0x40u8; 66]), Err(DecodeError::TooShort { len: 66 }));
}

#[test]
fn decoding_is_repeatable() {
    let mut parser = PacketParser::new();
    let p = packet_with_marker(67, 0x40, 0x0C);
    let first = parser.parse(&p);
    let second = parser.parse(&p);
    assert_eq!(first, second);
    let bad = packet_with_marker(67, 0x01, 0x02);
    assert_eq!(parser.parse(&bad), parser.parse(&bad));
}
