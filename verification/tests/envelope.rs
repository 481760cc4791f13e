use bytes::Bytes;
use vortex::tlv::Tag;
use vortex::Vortex;

#[test]
fn test_new_download_piece() {
    let tag = Tag::DownloadPiece;
    let value = Bytes::from("a".repeat(32) + "-42");
    let packet = Vortex::new(tag, value.clone()).expect("Failed to create Vortex packet");

    assert_eq!(packet.packet_id(), packet.packet_id());
    assert_eq!(packet.tag(), &tag);
    assert_eq!(packet.length(), value.len());
}

#[test]
fn test_new_piece_content() {
    let tag = Tag::PieceContent;
    let value = Bytes::from("Hello, world!");
    let packet = Vortex::new(tag, value.clone()).expect("Failed to create Vortex packet");

    assert_eq!(packet.packet_id(), packet.packet_id());
    assert_eq!(packet.tag(), &tag);
    assert_eq!(packet.length(), value.len());
}

#[test]
fn test_from_bytes() {
    let tag = Tag::DownloadPiece;
    let value = Bytes::from("a".repeat(32) + "-42");
    let packet = Vortex::new(tag, value.clone()).expect("Failed to create Vortex packet");
    let bytes = packet.to_bytes();
    let parsed_packet = Vortex::from_bytes(bytes).expect("Failed to parse Vortex packet from bytes");

    assert_eq!(parsed_packet.packet_id(), packet.packet_id());
    assert_eq!(parsed_packet.tag(), packet.tag());
    assert_eq!(parsed_packet.length(), packet.length());
}

#[test]
fn test_to_bytes() {
    let tag = Tag::DownloadPiece;
    let value = Bytes::from("a".repeat(32) + "-42");
    let packet = Vortex::new(tag, value.clone()).expect("Failed to create Vortex packet");
    let bytes = packet.to_bytes();
    let parsed_packet = Vortex::from_bytes(bytes).expect("Failed to parse Vortex packet from bytes");

    assert_eq!(parsed_packet.to_bytes(), packet.to_bytes());
}

#[test]
fn test_error_handling() {
    let tag = Tag::Error;
    let value = Bytes::from("1:Error message");
    let packet = Vortex::new(tag, value.clone()).expect("Failed to create Vortex packet");

    assert_eq!(packet.tag(), &tag);
    assert_eq!(packet.length(), value.len());
}
