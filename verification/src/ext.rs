//! Trusted declarations for the outside crates the codec lives with:
//! the `bytes` crate's shared byte buffer, which the public functions
//! take and return, and the `rand` crate's generator, which assigns
//! packet identifiers.

use vstd::prelude::*;

verus! {

#[verifier::external_type_specification]
#[verifier::external_body]
pub struct ExBytes(bytes::Bytes);

/// The bytes a `bytes::Bytes` buffer holds, in order.
pub uninterp spec fn bytes_view(b: bytes::Bytes) -> Seq<u8>;

/// Relies on `bytes::Bytes::len`: the number of bytes the buffer holds.
#[verifier::external_body]
pub(crate) fn bytes_len(b: &bytes::Bytes) -> (r: usize)
    ensures
        r == bytes_view(*b).len(),
{
    b.len()
}

/// Relies on `<[u8]>::to_vec` through `Bytes`'s deref to a byte slice:
/// copies the buffer's bytes unchanged.
#[verifier::external_body]
pub(crate) fn bytes_to_vec(b: &bytes::Bytes) -> (r: Vec<u8>)
    ensures
        r@ == bytes_view(*b),
{
    b.to_vec()
}

/// Relies on `From<Vec<u8>> for bytes::Bytes`: wraps the vector's bytes
/// unchanged.
#[verifier::external_body]
pub(crate) fn bytes_from_vec(v: Vec<u8>) -> (r: bytes::Bytes)
    ensures
        bytes_view(r) == v@,
{
    bytes::Bytes::from(v)
}

/// Relies on `rand::random`: draws one byte from the thread-local
/// generator; nothing is promised of its value.
#[verifier::external_body]
pub(crate) fn random_u8() -> u8 {
    rand::random()
}

} // verus!
