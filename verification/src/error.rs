//! Error taxonomy of the codec. Every failure is returned as a typed
//! value; malformed input never causes a panic. Each message reports
//! which invariant failed, with the observed and the expected sizes
//! where two sizes are compared.

use vstd::prelude::*;

use crate::decimal::dec_seq;
use crate::decimal::to_dec_string;

verus! {

/// A recoverable codec failure.
#[derive(Debug)]
pub enum Error {
    /// The buffer does not have the structure of a packet: it is
    /// shorter than a header, or a payload codec rejected the value.
    InvalidPacket(String),
    /// A length bound was violated: the declared length does not match
    /// the value's length, or a value exceeds the maximum value size.
    InvalidLength(String),
}

/// Message of the structural error for a buffer shorter than a header.
pub open spec fn min_size_msg(got: nat) -> Seq<char> {
    "expected min 6 bytes, got "@ + dec_seq(got)
}

/// Message of the length error for a value whose length differs from
/// the declared one.
pub open spec fn length_mismatch_msg(actual: nat, declared: nat) -> Seq<char> {
    "value len "@ + dec_seq(actual) + " != declared length "@ + dec_seq(declared)
}

/// Message of the length error for a value over the maximum value size.
pub open spec fn oversize_msg(len: nat) -> Seq<char> {
    "value len "@ + dec_seq(len) + " exceeds max value size "@ + dec_seq(
        crate::MAX_VALUE_SIZE as nat,
    )
}

/// Builds the structural error for a buffer of `got` bytes, fewer than
/// a header holds.
pub fn min_size_error(got: usize) -> (r: Error)
    ensures
        r matches Error::InvalidPacket(m) && m@ == min_size_msg(got as nat),
{
    let mut s = "expected min 6 bytes, got ".to_owned();
    let d = to_dec_string(got as u64);
    s.append(d.as_str());
    Error::InvalidPacket(s)
}

/// Builds the length error for a value of `actual` bytes against a
/// declared length of `declared`.
pub fn length_mismatch_error(actual: usize, declared: usize) -> (r: Error)
    ensures
        r matches Error::InvalidLength(m) && m@ == length_mismatch_msg(
            actual as nat,
            declared as nat,
        ),
{
    let mut s = "value len ".to_owned();
    let d1 = to_dec_string(actual as u64);
    s.append(d1.as_str());
    s.append(" != declared length ");
    let d2 = to_dec_string(declared as u64);
    s.append(d2.as_str());
    Error::InvalidLength(s)
}

/// Builds the length error for a value of `len` bytes, over the maximum
/// value size.
pub fn oversize_error(len: usize) -> (r: Error)
    ensures
        r matches Error::InvalidLength(m) && m@ == oversize_msg(len as nat),
{
    let mut s = "value len ".to_owned();
    let d1 = to_dec_string(len as u64);
    s.append(d1.as_str());
    s.append(" exceeds max value size ");
    let d2 = to_dec_string(crate::MAX_VALUE_SIZE);
    s.append(d2.as_str());
    Error::InvalidLength(s)
}

} // verus!
