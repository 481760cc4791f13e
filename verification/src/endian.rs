//! Big-endian encoding of the 32-bit length field: the four bytes of a
//! `u32`, most significant first, and the value a group of four bytes
//! denotes.

use vstd::prelude::*;

verus! {

/// The value four bytes denote when read big-endian.
pub open spec fn be_val(b0: u8, b1: u8, b2: u8, b3: u8) -> u32 {
    ((b0 as u32) << 24) | ((b1 as u32) << 16) | ((b2 as u32) << 8) | (b3 as u32)
}

/// The most significant byte of `n`.
pub open spec fn be0(n: u32) -> u8 {
    (n >> 24) as u8
}

/// The second byte of `n`, big-endian.
pub open spec fn be1(n: u32) -> u8 {
    (n >> 16) as u8
}

/// The third byte of `n`, big-endian.
pub open spec fn be2(n: u32) -> u8 {
    (n >> 8) as u8
}

/// The least significant byte of `n`.
pub open spec fn be3(n: u32) -> u8 {
    n as u8
}

/// Reading back the four big-endian bytes of `n` yields `n`.
pub proof fn lemma_be_round_trip(n: u32)
    ensures
        be_val(be0(n), be1(n), be2(n), be3(n)) == n,
{
    assert((((n >> 24) as u8 as u32) << 24) | (((n >> 16) as u8 as u32) << 16) | (((n
        >> 8) as u8 as u32) << 8) | ((n as u8) as u32) == n) by (bit_vector);
}

/// The bytes of the value four bytes denote are those bytes: the
/// big-endian reading is injective.
pub proof fn lemma_be_bytes_of_val(b0: u8, b1: u8, b2: u8, b3: u8)
    ensures
        be0(be_val(b0, b1, b2, b3)) == b0,
        be1(be_val(b0, b1, b2, b3)) == b1,
        be2(be_val(b0, b1, b2, b3)) == b2,
        be3(be_val(b0, b1, b2, b3)) == b3,
{
    let n = be_val(b0, b1, b2, b3);
    assert({
        let m = ((b0 as u32) << 24) | ((b1 as u32) << 16) | ((b2 as u32) << 8) | (b3 as u32);
        (m >> 24) as u8 == b0 && (m >> 16) as u8 == b1 && (m >> 8) as u8 == b2 && m as u8 == b3
    }) by (bit_vector);
}

/// Writes the four big-endian bytes of `n` onto the end of `out`.
pub fn push_be_bytes(out: &mut Vec<u8>, n: u32)
    ensures
        final(out)@ == old(out)@ + seq![be0(n), be1(n), be2(n), be3(n)],
{
    out.push((n >> 24) as u8);
    out.push((n >> 16) as u8);
    out.push((n >> 8) as u8);
    out.push(n as u8);
    proof {
        assert(out@ =~= old(out)@ + seq![be0(n), be1(n), be2(n), be3(n)]);
    }
}

/// Reads the value four bytes denote big-endian.
pub fn read_be(b0: u8, b1: u8, b2: u8, b3: u8) -> (r: u32)
    ensures
        r == be_val(b0, b1, b2, b3),
{
    ((b0 as u32) << 24) | ((b1 as u32) << 16) | ((b2 as u32) << 8) | (b3 as u32)
}

} // verus!
