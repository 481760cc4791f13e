//! Tag-Length-Value layer: the tag byte's classification and the
//! per-tag payload codecs.
//!
//! Every byte value maps to exactly one [`Tag`] variant: the known
//! protocol codes map to their named variant, and every other code maps
//! to [`Tag::Reserved`], which keeps the original byte so it can be
//! round-tripped without interpretation.

use vstd::prelude::*;

pub mod download_piece;
pub mod error;
pub mod piece_content;

verus! {

/// The ASCII byte of the digit characters `'0'` through `'9'`.
pub open spec fn is_ascii_digit(b: u8) -> bool {
    48 <= b && b <= 57
}

/// Reports whether every byte of `v[from..to]` is an ASCII digit.
pub fn all_digits_in(v: &Vec<u8>, from: usize, to: usize) -> (r: bool)
    requires
        from <= to <= v.len(),
    ensures
        r == forall|i: int| from <= i < to ==> is_ascii_digit(v@[i]),
{
    let mut i: usize = from;
    while i < to
        invariant
            from <= i <= to <= v.len(),
            forall|j: int| from <= j < i ==> is_ascii_digit(v@[j]),
        decreases to - i,
    {
        if v[i] < 48 || v[i] > 57 {
            return false;
        }
        i = i + 1;
    }
    true
}

/// Tag code of a piece-download request.
pub const TAG_DOWNLOAD_PIECE: u8 = 0;

/// Tag code of a piece-content chunk.
pub const TAG_PIECE_CONTENT: u8 = 1;

/// Tag code of a close control packet.
pub const TAG_CLOSE: u8 = 2;

/// Tag code of a structured error.
pub const TAG_ERROR: u8 = 255;

/// Classification of a packet's value by its tag byte.
#[derive(Clone, Copy, Debug, PartialEq, Eq, Hash, Structural)]
pub enum Tag {
    /// A request to download one piece.
    DownloadPiece,
    /// One chunk of a piece's content.
    PieceContent,
    /// A control packet closing the exchange; carries no value.
    Close,
    /// A structured error report.
    Error,
    /// Any tag code not assigned to a known variant; the byte is kept
    /// unchanged for forward compatibility.
    Reserved(u8),
}

impl Tag {
    /// The wire byte of this tag.
    pub open spec fn spec_code(self) -> u8 {
        match self {
            Tag::DownloadPiece => TAG_DOWNLOAD_PIECE,
            Tag::PieceContent => TAG_PIECE_CONTENT,
            Tag::Close => TAG_CLOSE,
            Tag::Error => TAG_ERROR,
            Tag::Reserved(b) => b,
        }
    }

    /// A tag is well formed when a reserved tag does not carry a byte
    /// that belongs to a known variant, so that the byte-to-tag mapping
    /// is a bijection on well-formed tags.
    pub open spec fn wf(self) -> bool {
        match self {
            Tag::Reserved(b) => b != TAG_DOWNLOAD_PIECE && b != TAG_PIECE_CONTENT && b != TAG_CLOSE
                && b != TAG_ERROR,
            _ => true,
        }
    }

    /// The tag a wire byte denotes; the mapping is total.
    pub open spec fn spec_of_code(b: u8) -> Tag {
        if b == TAG_DOWNLOAD_PIECE {
            Tag::DownloadPiece
        } else if b == TAG_PIECE_CONTENT {
            Tag::PieceContent
        } else if b == TAG_CLOSE {
            Tag::Close
        } else if b == TAG_ERROR {
            Tag::Error
        } else {
            Tag::Reserved(b)
        }
    }

    /// Converts this tag to its wire byte.
    pub fn to_u8(self) -> (r: u8)
        ensures
            r == self.spec_code(),
    {
        match self {
            Tag::DownloadPiece => TAG_DOWNLOAD_PIECE,
            Tag::PieceContent => TAG_PIECE_CONTENT,
            Tag::Close => TAG_CLOSE,
            Tag::Error => TAG_ERROR,
            Tag::Reserved(b) => b,
        }
    }

    /// Converts a wire byte to its tag; no byte is rejected.
    pub fn from_u8(b: u8) -> (r: Tag)
        ensures
            r == Tag::spec_of_code(b),
            r.wf(),
    {
        if b == TAG_DOWNLOAD_PIECE {
            Tag::DownloadPiece
        } else if b == TAG_PIECE_CONTENT {
            Tag::PieceContent
        } else if b == TAG_CLOSE {
            Tag::Close
        } else if b == TAG_ERROR {
            Tag::Error
        } else {
            Tag::Reserved(b)
        }
    }
}

/// Every byte survives the byte-to-tag-to-byte round trip, and the tag
/// it maps to is well formed.
pub proof fn lemma_tag_code_round_trip(b: u8)
    ensures
        Tag::spec_of_code(b).spec_code() == b,
        Tag::spec_of_code(b).wf(),
{
}

/// Every well-formed tag survives the tag-to-byte-to-tag round trip.
pub proof fn lemma_tag_of_code_inverse(t: Tag)
    requires
        t.wf(),
    ensures
        Tag::spec_of_code(t.spec_code()) == t,
{
}

} // verus!
