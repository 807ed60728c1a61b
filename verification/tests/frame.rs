use remote_cockpit::frame::{decode, encode, stream_tag};

#[test]
fn round_trip() {
    let payload = b"hello world";
    let encoded = encode(stream_tag::TERMINAL, payload);
    let (tag, decoded) = decode(&encoded).unwrap();
    assert_eq!(tag, stream_tag::TERMINAL);
    assert_eq!(decoded, payload);
}

#[test]
fn empty_frame_is_none() {
    assert!(decode(&[]).is_none());
}

#[test]
fn tag_only_frame_has_empty_payload() {
    let encoded = encode(stream_tag::TERMINAL, b"");
    let (tag, decoded) = decode(&encoded).unwrap();
    assert_eq!(tag, stream_tag::TERMINAL);
    assert!(decoded.is_empty());
}

#[test]
fn encode_puts_tag_first() {
    assert_eq!(encode(0x07, &[1, 2, 3]), vec![0x07, 1, 2, 3]);
    assert_eq!(encode(stream_tag::TERMINAL, &[]), vec![0x01]);
}

#[test]
fn decode_of_encode_gives_back_tag_and_payload() {
    let payload: Vec<u8> = (0u8..=255).collect();
    let frame = encode(0xFE, &payload);
    let (tag, rest) = decode(&frame).unwrap();
    assert_eq!(tag, 0xFE);
    assert_eq!(rest, payload.as_slice());
}

#[test]
fn decode_splits_first_byte() {
    let (tag, rest) = decode(&[9, 8, 7]).unwrap();
    assert_eq!(tag, 9);
    assert_eq!(rest, &[8, 7]);
    let (tag, rest) = decode(&[5]).unwrap();
    assert_eq!(tag, 5);
    assert!(rest.is_empty());
}
