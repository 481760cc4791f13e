//! Payload codec of a piece-content chunk: the raw bytes of one chunk
//! of a piece, accepted as they are.

use vstd::prelude::*;

use crate::error::Error;
use crate::util;

verus! {

/// One chunk of a piece's content.
#[derive(Debug)]
pub struct PieceContent {
    /// The chunk's bytes.
    pub data: Vec<u8>,
}

impl PieceContent {
    /// The serialized value of this payload: the bytes themselves.
    pub open spec fn enc(self) -> Seq<u8> {
        self.data@
    }

    /// Wraps a value as a piece-content payload; every value is
    /// accepted.
    pub fn from_bytes(value: Vec<u8>) -> (r: Result<PieceContent, Error>)
        ensures
            r is Ok,
            r matches Ok(p) ==> p.enc() == value@,
    {
        Ok(PieceContent { data: value })
    }

    /// Serializes this payload back to its value bytes.
    pub fn to_bytes(&self) -> (r: Vec<u8>)
        ensures
            r@ == self.enc(),
    {
        let mut out: Vec<u8> = Vec::new();
        util::append_bytes(&mut out, &self.data);
        proof {
            assert(out@ =~= self.enc());
        }
        out
    }
}

} // verus!
