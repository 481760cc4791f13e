use bytes::Bytes;
use vortex::error::Error;
use vortex::tlv::Tag;
use vortex::Vortex;

#[test]
fn test_piece_content_encode_bytes() {
    let value = Bytes::from("Hello, world!");
    let packet = Vortex::new(Tag::PieceContent, value).expect("Failed to create Vortex packet");
    let bytes = packet.to_bytes();

    assert_eq!(bytes.len(), 19);
    assert_eq!(&bytes[6..], b"Hello, world!");
}

#[test]
fn test_decode_too_short() {
    let err = Vortex::from_bytes(Bytes::from(vec![0x01, 0x02, 0x03])).unwrap_err();
    match err {
        Error::InvalidPacket(m) => assert_eq!(m, "expected min 6 bytes, got 3"),
        Error::InvalidLength(m) => panic!("expected a structural error, got InvalidLength({m})"),
    }
}

#[test]
fn test_decode_length_mismatch() {
    // Header declares a value of 10 bytes, but only 8 follow.
    let mut buf: Vec<u8> = vec![0x01, 0x01, 0x00, 0x00, 0x00, 0x0a];
    buf.extend_from_slice(&[0u8; 8]);
    let err = Vortex::from_bytes(Bytes::from(buf)).unwrap_err();
    match err {
        Error::InvalidLength(m) => assert_eq!(m, "value len 8 != declared length 10"),
        Error::InvalidPacket(m) => panic!("expected a length error, got InvalidPacket({m})"),
    }
}

#[test]
fn test_close_round_trip() {
    let packet = Vortex::new(Tag::Close, Bytes::new()).expect("Failed to create Vortex packet");
    assert_eq!(packet.length(), 0);

    let bytes = packet.to_bytes();
    assert_eq!(bytes.len(), 6);

    let parsed = Vortex::from_bytes(bytes).expect("Failed to parse Vortex packet from bytes");
    assert_eq!(parsed.tag(), &Tag::Close);
    assert_eq!(parsed.length(), 0);
    assert_eq!(parsed.packet_id(), packet.packet_id());
}

#[test]
fn test_packet_id_stability() {
    let packet = Vortex::with_packet_id(Tag::PieceContent, 42, b"abc".to_vec())
        .expect("Failed to create Vortex packet");
    assert_eq!(packet.packet_id(), 42);

    let parsed = Vortex::from_bytes(packet.to_bytes())
        .expect("Failed to parse Vortex packet from bytes");
    assert_eq!(parsed.packet_id(), 42);
}

#[test]
fn test_reserved_round_trip() {
    let value = Bytes::from(vec![9u8, 8u8, 7u8]);
    let packet =
        Vortex::new(Tag::Reserved(100), value).expect("Failed to create Vortex packet");
    assert_eq!(packet.length(), 3);

    let bytes = packet.to_bytes();
    assert_eq!(&bytes[..], &[packet.packet_id(), 100, 0, 0, 0, 3, 9, 8, 7]);

    let parsed = Vortex::from_bytes(bytes).expect("Failed to parse Vortex packet from bytes");
    assert_eq!(parsed.tag(), &Tag::Reserved(100));
    assert_eq!(parsed.length(), 3);
    assert_eq!(parsed.to_bytes(), packet.to_bytes());
}

#[test]
fn test_error_payload_round_trip() {
    let value = Bytes::from("404:piece not found");
    let packet = Vortex::new(Tag::Error, value.clone()).expect("Failed to create Vortex packet");
    let bytes = packet.to_bytes();
    assert_eq!(&bytes[6..], &value[..]);

    let parsed = Vortex::from_bytes(bytes).expect("Failed to parse Vortex packet from bytes");
    assert_eq!(parsed.tag(), &Tag::Error);
    assert_eq!(parsed.length(), value.len());
    assert_eq!(parsed.to_bytes(), packet.to_bytes());
}

#[test]
fn test_download_piece_malformed() {
    let err = Vortex::new(Tag::DownloadPiece, Bytes::from("abc")).unwrap_err();
    match err {
        Error::InvalidPacket(m) => assert_eq!(m, "invalid download piece value"),
        Error::InvalidLength(m) => panic!("expected a payload error, got InvalidLength({m})"),
    }

    // Separator in place but the piece number is not all digits.
    let bad = Bytes::from("a".repeat(32) + "-4x");
    assert!(matches!(
        Vortex::new(Tag::DownloadPiece, bad),
        Err(Error::InvalidPacket(_))
    ));
}

#[test]
fn test_error_payload_malformed() {
    let err = Vortex::new(Tag::Error, Bytes::from("no colon here")).unwrap_err();
    match err {
        Error::InvalidPacket(m) => assert_eq!(m, "invalid error value"),
        Error::InvalidLength(m) => panic!("expected a payload error, got InvalidLength({m})"),
    }

    // A leading colon leaves the code empty.
    assert!(matches!(
        Vortex::new(Tag::Error, Bytes::from(":message")),
        Err(Error::InvalidPacket(_))
    ));
}

#[test]
fn test_close_nonempty_rejected() {
    let err = Vortex::new(Tag::Close, Bytes::from("x")).unwrap_err();
    match err {
        Error::InvalidPacket(m) => assert_eq!(m, "close expects empty value"),
        Error::InvalidLength(m) => panic!("expected a payload error, got InvalidLength({m})"),
    }
}

#[test]
fn test_tag_byte_round_trip() {
    assert_eq!(Tag::from_u8(0), Tag::DownloadPiece);
    assert_eq!(Tag::from_u8(1), Tag::PieceContent);
    assert_eq!(Tag::from_u8(2), Tag::Close);
    assert_eq!(Tag::from_u8(255), Tag::Error);
    assert_eq!(Tag::from_u8(9), Tag::Reserved(9));
    for b in 0..=255u8 {
        assert_eq!(Tag::from_u8(b).to_u8(), b);
    }
}

#[test]
fn test_download_piece_round_trip_content() {
    let text = "b".repeat(32) + "-7";
    let value = Bytes::from(text.clone());
    let packet =
        Vortex::new(Tag::DownloadPiece, value).expect("Failed to create Vortex packet");
    let bytes = packet.to_bytes();
    assert_eq!(&bytes[6..], text.as_bytes());

    let parsed = Vortex::from_bytes(bytes).expect("Failed to parse Vortex packet from bytes");
    assert_eq!(&parsed.to_bytes()[6..], text.as_bytes());
}
