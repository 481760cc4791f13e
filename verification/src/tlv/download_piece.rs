//! Payload codec of a piece-download request: a fixed-size task
//! identifier, a separator, and the decimal digits of the piece number.

use vstd::prelude::*;

use crate::error::Error;
use crate::tlv::is_ascii_digit;
use crate::util;

verus! {

/// Length in bytes of the task identifier at the front of the value.
pub const TASK_ID_SIZE: usize = 32;

/// The ASCII byte of `'-'`, separating the task identifier from the
/// piece number.
pub const SEPARATOR: u8 = 45;

/// A request to download one piece of a task.
#[derive(Debug)]
pub struct DownloadPiece {
    /// The task identifier, exactly [`TASK_ID_SIZE`] bytes.
    pub task_id: Vec<u8>,
    /// The decimal digits of the piece number, at least one byte.
    pub piece_digits: Vec<u8>,
}

impl DownloadPiece {
    /// Well-formedness: the task identifier has its fixed size and the
    /// piece number is at least one ASCII digit.
    pub open spec fn wf(self) -> bool {
        &&& self.task_id@.len() == TASK_ID_SIZE
        &&& self.piece_digits@.len() >= 1
        &&& forall|i: int|
            0 <= i < self.piece_digits@.len() ==> is_ascii_digit(self.piece_digits@[i])
    }

    /// The serialized value of this payload.
    pub open spec fn enc(self) -> Seq<u8> {
        self.task_id@ + seq![SEPARATOR] + self.piece_digits@
    }

    /// Whether a value has this payload's structure: a task identifier,
    /// the separator, and at least one digit.
    pub open spec fn parses(v: Seq<u8>) -> bool {
        &&& v.len() > TASK_ID_SIZE + 1
        &&& v[TASK_ID_SIZE as int] == SEPARATOR
        &&& forall|i: int| TASK_ID_SIZE + 1 <= i < v.len() ==> is_ascii_digit(v[i])
    }

    /// Parses a value into a download-piece payload. Succeeds exactly
    /// on the values with the payload's structure, and on success the
    /// payload serializes back to the given value.
    pub fn from_bytes(value: Vec<u8>) -> (r: Result<DownloadPiece, Error>)
        ensures
            Self::parses(value@) <==> r is Ok,
            r matches Ok(p) ==> p.wf() && p.enc() == value@,
            r matches Err(e) ==> e matches Error::InvalidPacket(m) && m@ == malformed_msg(),
    {
        if value.len() <= TASK_ID_SIZE + 1 {
            return Err(Error::InvalidPacket("invalid download piece value".to_owned()));
        }
        if value[TASK_ID_SIZE] != SEPARATOR {
            return Err(Error::InvalidPacket("invalid download piece value".to_owned()));
        }
        if !crate::tlv::all_digits_in(&value, TASK_ID_SIZE + 1, value.len()) {
            return Err(Error::InvalidPacket("invalid download piece value".to_owned()));
        }
        let task_id = util::sub_bytes(&value, 0, TASK_ID_SIZE);
        let piece_digits = util::sub_bytes(&value, TASK_ID_SIZE + 1, value.len());
        let p = DownloadPiece { task_id, piece_digits };
        proof {
            assert(p.enc() =~= value@);
        }
        Ok(p)
    }

    /// Serializes this payload back to its value bytes.
    pub fn to_bytes(&self) -> (r: Vec<u8>)
        ensures
            r@ == self.enc(),
    {
        let mut out: Vec<u8> = Vec::new();
        util::append_bytes(&mut out, &self.task_id);
        out.push(SEPARATOR);
        util::append_bytes(&mut out, &self.piece_digits);
        proof {
            assert(out@ =~= self.enc());
        }
        out
    }
}

/// Message of the error a malformed download-piece value is rejected
/// with.
pub open spec fn malformed_msg() -> Seq<char> {
    "invalid download piece value"@
}

/// A well-formed download-piece payload's serialized value parses back.
pub proof fn lemma_enc_parses(p: DownloadPiece)
    requires
        p.wf(),
    ensures
        DownloadPiece::parses(p.enc()),
{
    assert(p.enc()[TASK_ID_SIZE as int] == SEPARATOR);
    assert forall|i: int| TASK_ID_SIZE + 1 <= i < p.enc().len() implies is_ascii_digit(
        p.enc()[i],
    ) by {
        assert(p.enc()[i] == p.piece_digits@[i - (TASK_ID_SIZE + 1)]);
    }
}

} // verus!
