//! Payload codec of a structured error: the decimal digits of an error
//! code, a separating colon, and a human-readable message.

use vstd::prelude::*;

use crate::tlv::is_ascii_digit;
use crate::util;

verus! {

/// The ASCII byte of `':'`, separating the error code from the message.
pub const COLON: u8 = 58;

/// A structured error report carried as a packet's value.
#[derive(Debug)]
pub struct Error {
    /// The decimal digits of the error code, at least one byte.
    pub code_digits: Vec<u8>,
    /// The message bytes; they may themselves contain a colon.
    pub message: Vec<u8>,
}

impl Error {
    /// Well-formedness: the code is at least one ASCII digit.
    pub open spec fn wf(self) -> bool {
        &&& self.code_digits@.len() >= 1
        &&& forall|i: int| 0 <= i < self.code_digits@.len() ==> is_ascii_digit(self.code_digits@[i])
    }

    /// The serialized value of this payload.
    pub open spec fn enc(self) -> Seq<u8> {
        self.code_digits@ + seq![COLON] + self.message@
    }

    /// Whether a value has this payload's structure: one or more digits
    /// up to the first colon, then the message.
    pub open spec fn parses(v: Seq<u8>) -> bool {
        exists|k: int|
            1 <= k < v.len() && v[k] == COLON && (forall|j: int| 0 <= j < k ==> is_ascii_digit(v[j]))
    }

    /// Parses a value into an error payload. Succeeds exactly on the
    /// values with the payload's structure, and on success the payload
    /// serializes back to the given value.
    pub fn from_bytes(value: Vec<u8>) -> (r: Result<Error, crate::error::Error>)
        ensures
            Self::parses(value@) <==> r is Ok,
            r matches Ok(p) ==> p.wf() && p.enc() == value@,
            r matches Err(e) ==> e matches crate::error::Error::InvalidPacket(m) && m@
                == malformed_msg(),
    {
        let n = value.len();
        let mut i: usize = 0;
        while i < n && value[i] != COLON
            invariant
                i <= n,
                n == value@.len(),
                forall|j: int| 0 <= j < i ==> value@[j] != COLON,
            decreases n - i,
        {
            i = i + 1;
        }
        if i == n {
            // No colon anywhere: no split position can exist.
            proof {
                assert(!Self::parses(value@));
            }
            return Err(crate::error::Error::InvalidPacket("invalid error value".to_owned()));
        }
        if i == 0 {
            // The value starts with the colon: the code is empty, and a
            // later colon cannot be a split position since the byte at
            // index 0 is not a digit.
            proof {
                assert forall|k: int|
                    1 <= k < value@.len() && value@[k] == COLON implies !(forall|j: int|
                    0 <= j < k ==> is_ascii_digit(value@[j])) by {
                    assert(!is_ascii_digit(value@[0]));
                }
                assert(!Self::parses(value@));
            }
            return Err(crate::error::Error::InvalidPacket("invalid error value".to_owned()));
        }
        if !crate::tlv::all_digits_in(&value, 0, i) {
            // Some byte before the first colon is not a digit, so no
            // split position can exist: one at or after the first colon
            // would need that byte to be a digit, and there is no colon
            // before it.
            proof {
                let j0 = choose|j: int| 0 <= j < i && !is_ascii_digit(value@[j]);
                assert forall|k: int|
                    1 <= k < value@.len() && value@[k] == COLON implies !(forall|j: int|
                    0 <= j < k ==> is_ascii_digit(value@[j])) by {
                    if k < i {
                        assert(value@[k] != COLON);
                    } else {
                        assert(0 <= j0 < k && !is_ascii_digit(value@[j0]));
                    }
                }
                assert(!Self::parses(value@));
            }
            return Err(crate::error::Error::InvalidPacket("invalid error value".to_owned()));
        }
        let code_digits = util::sub_bytes(&value, 0, i);
        let message = util::sub_bytes(&value, i + 1, n);
        let p = Error { code_digits, message };
        proof {
            assert(p.enc() =~= value@);
            assert(value@[i as int] == COLON);
            assert(Self::parses(value@));
        }
        Ok(p)
    }

    /// Serializes this payload back to its value bytes.
    pub fn to_bytes(&self) -> (r: Vec<u8>)
        ensures
            r@ == self.enc(),
    {
        let mut out: Vec<u8> = Vec::new();
        util::append_bytes(&mut out, &self.code_digits);
        out.push(COLON);
        util::append_bytes(&mut out, &self.message);
        proof {
            assert(out@ =~= self.enc());
        }
        out
    }
}

/// Message of the error a malformed error value is rejected with.
pub open spec fn malformed_msg() -> Seq<char> {
    "invalid error value"@
}

/// A well-formed error payload's serialized value parses back.
pub proof fn lemma_enc_parses(p: Error)
    requires
        p.wf(),
    ensures
        Error::parses(p.enc()),
{
    let k = p.code_digits@.len() as int;
    assert(p.enc()[k] == COLON);
    assert forall|j: int| 0 <= j < k implies is_ascii_digit(p.enc()[j]) by {
        assert(p.enc()[j] == p.code_digits@[j]);
    }
}

} // verus!
