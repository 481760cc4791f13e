//! Codec for the Vortex wire envelope: a fixed six-byte header (packet
//! identifier, tag byte, big-endian value length) followed by a
//! tag-specific value.
//!
//! A packet is built either from a tag and raw value bytes
//! ([`Vortex::new`]) or from a received buffer ([`Vortex::from_bytes`]);
//! both paths yield the same in-memory representation, which
//! [`Vortex::to_bytes`] serializes back to the canonical wire form.
//! Decoding never panics on malformed input: every failure is a typed
//! [`error::Error`].

use vstd::prelude::*;

pub mod decimal;
pub mod endian;
pub mod error;
pub mod ext;
pub mod tlv;
pub mod util;

use crate::endian::be0;
use crate::endian::be1;
use crate::endian::be2;
use crate::endian::be3;
use crate::endian::be_val;
use crate::error::Error;
use crate::ext::bytes_view;
use crate::tlv::Tag;

verus! {

/// Size of the packet header in bytes: packet identifier (1), tag (1),
/// value length (4).
pub const HEADER_SIZE: usize = 6;

/// Greatest value length the 32-bit length field can carry; a longer
/// value is rejected at construction, before a header is built.
pub const MAX_VALUE_SIZE: u64 = 4294967295;

/// The fixed-size prefix of every packet.
#[derive(Debug)]
pub struct Header {
    /// Opaque correlation byte, randomly assigned at construction and
    /// taken verbatim from the wire on decode.
    pub packet_id: u8,
    /// Classification of the value field.
    pub tag: Tag,
    /// Byte length of the serialized value field.
    pub length: usize,
}

/// A Vortex packet: the header together with the tag-specific payload.
///
/// Packet format on the wire, numeric fields big-endian:
///
/// ```text
/// | packet identifier (1 byte) | tag (1 byte) | length (4 bytes) | value (length bytes) |
/// ```
#[derive(Debug)]
pub enum Vortex {
    /// A request to download one piece.
    DownloadPiece(Header, tlv::download_piece::DownloadPiece),
    /// One chunk of a piece's content.
    PieceContent(Header, tlv::piece_content::PieceContent),
    /// A control packet closing the exchange; its value is empty.
    Close(Header),
    /// A packet with an unassigned tag code; its value bytes are kept
    /// uninterpreted so the packet round-trips unchanged.
    Reserved(Header, Vec<u8>),
    /// A structured error report.
    Error(Header, tlv::error::Error),
}

/// The value length a buffer's header declares, read big-endian from
/// bytes 2 through 5. Meaningful only for buffers of at least
/// [`HEADER_SIZE`] bytes.
pub open spec fn declared_len(b: Seq<u8>) -> int {
    be_val(b[2], b[3], b[4], b[5]) as int
}

/// Whether a whole buffer decodes into a packet: it holds a full
/// header, its trailing bytes match the declared length exactly, and
/// the tag's payload codec accepts them.
pub open spec fn decode_accepts(b: Seq<u8>) -> bool {
    &&& b.len() >= HEADER_SIZE
    &&& b.len() - HEADER_SIZE == declared_len(b)
    &&& Vortex::payload_accepts(
        Tag::spec_of_code(b[1]),
        b.subrange(HEADER_SIZE as int, b.len() as int),
    )
}

/// Message of the error a close packet with a nonempty value is
/// rejected with.
pub open spec fn close_nonempty_msg() -> Seq<char> {
    "close expects empty value"@
}

/// Message of the error a tag's payload codec rejects a value with.
/// Only the tags that can reject a value have one; for the others the
/// question never arises and the message is empty.
pub open spec fn payload_reject_msg(tag: Tag) -> Seq<char> {
    match tag {
        Tag::DownloadPiece => tlv::download_piece::malformed_msg(),
        Tag::Error => tlv::error::malformed_msg(),
        Tag::Close => close_nonempty_msg(),
        _ => Seq::<char>::empty(),
    }
}

impl Vortex {
    /// The packet's header.
    pub open spec fn spec_header(self) -> Header {
        match self {
            Vortex::DownloadPiece(h, _) => h,
            Vortex::PieceContent(h, _) => h,
            Vortex::Close(h) => h,
            Vortex::Reserved(h, _) => h,
            Vortex::Error(h, _) => h,
        }
    }

    /// The packet's identifier byte.
    pub open spec fn spec_packet_id(self) -> u8 {
        self.spec_header().packet_id
    }

    /// The packet's tag.
    pub open spec fn spec_tag(self) -> Tag {
        self.spec_header().tag
    }

    /// The packet's value length.
    pub open spec fn spec_length(self) -> usize {
        self.spec_header().length
    }

    /// The serialized value field of the packet: the payload's own
    /// serialization, empty for a close packet, and the kept raw bytes
    /// for a reserved one.
    pub open spec fn value_seq(self) -> Seq<u8> {
        match self {
            Vortex::DownloadPiece(_, p) => p.enc(),
            Vortex::PieceContent(_, p) => p.enc(),
            Vortex::Close(_) => Seq::<u8>::empty(),
            Vortex::Reserved(_, v) => v@,
            Vortex::Error(_, e) => e.enc(),
        }
    }

    /// Well-formedness, established by both construction paths and
    /// preserved thereafter: the tag is well formed and matches the
    /// variant, the payload is well formed, and the header's length
    /// field equals the serialized value's length, which fits the
    /// 32-bit length field.
    pub open spec fn wf(self) -> bool {
        &&& self.spec_header().tag.wf()
        &&& self.spec_header().length == self.value_seq().len()
        &&& self.value_seq().len() <= MAX_VALUE_SIZE
        &&& match self {
            Vortex::DownloadPiece(h, p) => h.tag == Tag::DownloadPiece && p.wf(),
            Vortex::PieceContent(h, _) => h.tag == Tag::PieceContent,
            Vortex::Close(h) => h.tag == Tag::Close,
            Vortex::Reserved(h, _) => h.tag matches Tag::Reserved(_),
            Vortex::Error(h, e) => h.tag == Tag::Error && e.wf(),
        }
    }

    /// The packet's canonical wire form: the six header bytes followed
    /// by the serialized value.
    pub open spec fn wire_seq(self) -> Seq<u8> {
        let h = self.spec_header();
        let len32 = h.length as u32;
        seq![
            h.packet_id,
            h.tag.spec_code(),
            be0(len32),
            be1(len32),
            be2(len32),
            be3(len32),
        ] + self.value_seq()
    }

    /// Whether the payload codec of `tag` accepts the value `v`: a
    /// download-piece or error value must have its payload's structure,
    /// a close value must be empty, and every value is accepted for
    /// piece-content and reserved tags.
    pub open spec fn payload_accepts(tag: Tag, v: Seq<u8>) -> bool {
        match tag {
            Tag::DownloadPiece => tlv::download_piece::DownloadPiece::parses(v),
            Tag::PieceContent => true,
            Tag::Close => v.len() == 0,
            Tag::Error => tlv::error::Error::parses(v),
            Tag::Reserved(_) => true,
        }
    }

    /// Builds a packet from a tag, a caller-chosen packet identifier,
    /// and the raw value bytes. Succeeds exactly when the value fits
    /// the size ceiling and the tag's payload codec accepts it; an
    /// oversized value is rejected with a length error before anything
    /// else is done.
    pub fn with_packet_id(tag: Tag, packet_id: u8, value: Vec<u8>) -> (r: Result<Vortex, Error>)
        requires
            tag.wf(),
        ensures
            (value@.len() <= MAX_VALUE_SIZE && Vortex::payload_accepts(tag, value@)) <==> r is Ok,
            r matches Ok(p) ==> p.wf() && p.spec_packet_id() == packet_id && p.spec_tag() == tag
                && p.spec_length() == value@.len() && p.value_seq() == value@,
            value@.len() > MAX_VALUE_SIZE ==> (r matches Err(e) && e matches Error::InvalidLength(m)
                && m@ == error::oversize_msg(value@.len())),
            (value@.len() <= MAX_VALUE_SIZE && !Vortex::payload_accepts(tag, value@)) ==> (
            r matches Err(e) && e matches Error::InvalidPacket(m) && m@ == payload_reject_msg(
                tag,
            )),
    {
        let len = value.len();
        if len as u64 > MAX_VALUE_SIZE {
            return Err(error::oversize_error(len));
        }
        match tag {
            Tag::DownloadPiece => match tlv::download_piece::DownloadPiece::from_bytes(value) {
                Ok(p) => Ok(Vortex::DownloadPiece(Header { packet_id, tag, length: len }, p)),
                Err(e) => Err(e),
            },
            Tag::PieceContent => match tlv::piece_content::PieceContent::from_bytes(value) {
                Ok(p) => Ok(Vortex::PieceContent(Header { packet_id, tag, length: len }, p)),
                Err(e) => Err(e),
            },
            Tag::Close => {
                if len == 0 {
                    Ok(Vortex::Close(Header { packet_id, tag, length: 0 }))
                } else {
                    Err(Error::InvalidPacket("close expects empty value".to_owned()))
                }
            },
            Tag::Error => match tlv::error::Error::from_bytes(value) {
                Ok(p) => Ok(Vortex::Error(Header { packet_id, tag, length: len }, p)),
                Err(e) => Err(e),
            },
            Tag::Reserved(_) => Ok(Vortex::Reserved(Header { packet_id, tag, length: len }, value)),
        }
    }

    /// Builds a packet from a tag and the raw value bytes, assigning a
    /// fresh random packet identifier. The value's size is checked
    /// first: an oversized value is rejected before any identifier is
    /// drawn or any header is built.
    pub fn new(tag: Tag, value: bytes::Bytes) -> (r: Result<Vortex, Error>)
        requires
            tag.wf(),
        ensures
            (bytes_view(value).len() <= MAX_VALUE_SIZE && Vortex::payload_accepts(
                tag,
                bytes_view(value),
            )) <==> r is Ok,
            r matches Ok(p) ==> p.wf() && p.spec_tag() == tag && p.spec_length() == bytes_view(
                value,
            ).len() && p.value_seq() == bytes_view(value),
            bytes_view(value).len() > MAX_VALUE_SIZE ==> (r matches Err(e) && e matches Error::InvalidLength(m)
                && m@ == error::oversize_msg(bytes_view(value).len())),
            (bytes_view(value).len() <= MAX_VALUE_SIZE && !Vortex::payload_accepts(
                tag,
                bytes_view(value),
            )) ==> (r matches Err(e) && e matches Error::InvalidPacket(m) && m@
                == payload_reject_msg(tag)),
    {
        let len = ext::bytes_len(&value);
        if len as u64 > MAX_VALUE_SIZE {
            return Err(error::oversize_error(len));
        }
        let packet_id = ext::random_u8();
        let v = ext::bytes_to_vec(&value);
        Self::with_packet_id(tag, packet_id, v)
    }

    /// Returns the packet identifier.
    pub fn packet_id(&self) -> (r: u8)
        ensures
            r == self.spec_packet_id(),
    {
        match self {
            Vortex::DownloadPiece(header, _) => header.packet_id,
            Vortex::PieceContent(header, _) => header.packet_id,
            Vortex::Close(header) => header.packet_id,
            Vortex::Reserved(header, _) => header.packet_id,
            Vortex::Error(header, _) => header.packet_id,
        }
    }

    /// Returns the tag.
    pub fn tag(&self) -> (r: &Tag)
        ensures
            *r == self.spec_tag(),
    {
        match self {
            Vortex::DownloadPiece(header, _) => &header.tag,
            Vortex::PieceContent(header, _) => &header.tag,
            Vortex::Close(header) => &header.tag,
            Vortex::Reserved(header, _) => &header.tag,
            Vortex::Error(header, _) => &header.tag,
        }
    }

    /// Returns the length of the value field.
    pub fn length(&self) -> (r: usize)
        ensures
            r == self.spec_length(),
    {
        match self {
            Vortex::DownloadPiece(header, _) => header.length,
            Vortex::PieceContent(header, _) => header.length,
            Vortex::Close(header) => header.length,
            Vortex::Reserved(header, _) => header.length,
            Vortex::Error(header, _) => header.length,
        }
    }

    /// Decodes a packet from a complete received buffer. A buffer
    /// shorter than a header fails with a structural error naming the
    /// minimum and the observed size; a buffer whose trailing bytes do
    /// not match the declared length fails with a length error naming
    /// both; a value the tag's payload codec rejects fails with that
    /// codec's error. On success every field is taken from the wire —
    /// the packet identifier verbatim — and re-encoding the packet
    /// yields the buffer again.
    pub fn from_bytes(bytes: bytes::Bytes) -> (r: Result<Vortex, Error>)
        ensures
            ({
                let b = bytes_view(bytes);
                &&& decode_accepts(b) <==> r is Ok
                &&& r matches Ok(p) ==> p.wf() && p.spec_packet_id() == b[0] && p.spec_tag()
                    == Tag::spec_of_code(b[1]) && p.spec_length() == b.len() - HEADER_SIZE
                    && p.value_seq() == b.subrange(HEADER_SIZE as int, b.len() as int)
                    && p.wire_seq() == b
                &&& b.len() < HEADER_SIZE ==> (r matches Err(e) && e matches Error::InvalidPacket(m)
                    && m@ == error::min_size_msg(b.len()))
                &&& (b.len() >= HEADER_SIZE && b.len() - HEADER_SIZE != declared_len(b)) ==> (
                r matches Err(e) && e matches Error::InvalidLength(m) && m@
                    == error::length_mismatch_msg(
                    (b.len() - HEADER_SIZE) as nat,
                    declared_len(b) as nat,
                ))
                &&& (b.len() >= HEADER_SIZE && b.len() - HEADER_SIZE == declared_len(b)
                    && !Vortex::payload_accepts(
                    Tag::spec_of_code(b[1]),
                    b.subrange(HEADER_SIZE as int, b.len() as int),
                )) ==> (r matches Err(e) && e matches Error::InvalidPacket(m) && m@
                    == payload_reject_msg(Tag::spec_of_code(b[1])))
            }),
    {
        let ghost b = bytes_view(bytes);
        let n = ext::bytes_len(&bytes);
        if n < HEADER_SIZE {
            return Err(error::min_size_error(n));
        }
        let buf = ext::bytes_to_vec(&bytes);
        let packet_id = buf[0];
        let tag_byte = buf[1];
        let declared = endian::read_be(buf[2], buf[3], buf[4], buf[5]);
        let value_len = n - HEADER_SIZE;
        if value_len as u64 != declared as u64 {
            return Err(error::length_mismatch_error(value_len, declared as usize));
        }
        let tag = Tag::from_u8(tag_byte);
        let value = util::sub_bytes(&buf, HEADER_SIZE, n);
        let header = Header { packet_id, tag, length: value_len };
        proof {
            tlv::lemma_tag_code_round_trip(b[1]);
            endian::lemma_be_bytes_of_val(b[2], b[3], b[4], b[5]);
        }
        match tag {
            Tag::DownloadPiece => match tlv::download_piece::DownloadPiece::from_bytes(value) {
                Ok(p) => {
                    let pkt = Vortex::DownloadPiece(header, p);
                    proof {
                        assert(pkt.wire_seq() =~= b);
                    }
                    Ok(pkt)
                },
                Err(e) => Err(e),
            },
            Tag::PieceContent => match tlv::piece_content::PieceContent::from_bytes(value) {
                Ok(p) => {
                    let pkt = Vortex::PieceContent(header, p);
                    proof {
                        assert(pkt.wire_seq() =~= b);
                    }
                    Ok(pkt)
                },
                Err(e) => Err(e),
            },
            Tag::Close => {
                if value.len() == 0 {
                    let pkt = Vortex::Close(header);
                    proof {
                        assert(pkt.wire_seq() =~= b);
                    }
                    Ok(pkt)
                } else {
                    Err(Error::InvalidPacket("close expects empty value".to_owned()))
                }
            },
            Tag::Error => match tlv::error::Error::from_bytes(value) {
                Ok(p) => {
                    let pkt = Vortex::Error(header, p);
                    proof {
                        assert(pkt.wire_seq() =~= b);
                    }
                    Ok(pkt)
                },
                Err(e) => Err(e),
            },
            Tag::Reserved(_) => {
                let pkt = Vortex::Reserved(header, value);
                proof {
                    assert(pkt.wire_seq() =~= b);
                }
                Ok(pkt)
            },
        }
    }

    /// Serializes the packet to its canonical wire form: the six header
    /// bytes — packet identifier, tag code, big-endian value length —
    /// followed by the serialized value. The output always has
    /// `HEADER_SIZE + length` bytes, and encoding is deterministic.
    pub fn to_bytes(&self) -> (r: bytes::Bytes)
        requires
            self.wf(),
        ensures
            bytes_view(r) == self.wire_seq(),
    {
        let value: Vec<u8> = match self {
            Vortex::DownloadPiece(_, p) => p.to_bytes(),
            Vortex::PieceContent(_, p) => p.to_bytes(),
            Vortex::Close(_) => Vec::new(),
            Vortex::Reserved(_, v) => util::sub_bytes(v, 0, v.len()),
            Vortex::Error(_, e) => e.to_bytes(),
        };
        proof {
            assert(value@ =~= self.value_seq());
        }
        let mut out: Vec<u8> = Vec::new();
        out.push(self.packet_id());
        out.push(self.tag().to_u8());
        let len = self.length();
        endian::push_be_bytes(&mut out, len as u32);
        util::append_bytes(&mut out, &value);
        proof {
            assert(out@ =~= self.wire_seq());
        }
        ext::bytes_from_vec(out)
    }
}

/// Law: round trip. Every well-formed packet's wire form decodes back:
/// the buffer [`Vortex::to_bytes`] produces is accepted by
/// [`Vortex::from_bytes`], and by that function's contract the decoded
/// packet carries the same packet identifier, the same tag, the same
/// length, and the same serialized value as the original.
pub proof fn lemma_round_trip(p: Vortex)
    requires
        p.wf(),
    ensures
        decode_accepts(p.wire_seq()),
        p.wire_seq()[0] == p.spec_packet_id(),
        Tag::spec_of_code(p.wire_seq()[1]) == p.spec_tag(),
        p.wire_seq().len() - HEADER_SIZE == p.spec_length(),
        p.wire_seq().subrange(HEADER_SIZE as int, p.wire_seq().len() as int) == p.value_seq(),
{
    let w = p.wire_seq();
    let len32 = p.spec_header().length as u32;
    endian::lemma_be_round_trip(len32);
    tlv::lemma_tag_of_code_inverse(p.spec_tag());
    assert(w.subrange(HEADER_SIZE as int, w.len() as int) =~= p.value_seq());
    match p {
        Vortex::DownloadPiece(_, dp) => {
            tlv::download_piece::lemma_enc_parses(dp);
        },
        Vortex::Error(_, e) => {
            tlv::error::lemma_enc_parses(e);
        },
        _ => {},
    }
}

/// Law: empty-payload tags round-trip with length 0. A well-formed
/// close or reserved packet with an empty value has length 0, its wire
/// form is exactly one header, and that wire form decodes back.
pub proof fn lemma_empty_value_round_trip(p: Vortex)
    requires
        p.wf(),
        p.spec_tag() == Tag::Close || p.spec_tag() matches Tag::Reserved(_),
        p.value_seq().len() == 0,
    ensures
        p.spec_length() == 0,
        p.wire_seq().len() == HEADER_SIZE,
        decode_accepts(p.wire_seq()),
{
    lemma_round_trip(p);
}

} // verus!
