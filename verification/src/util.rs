//! Small verified helpers over byte vectors: appending one vector to
//! another and copying a subrange out of one.

use vstd::prelude::*;

verus! {

/// Appends all of `src` to the end of `dst`.
pub fn append_bytes(dst: &mut Vec<u8>, src: &Vec<u8>)
    ensures
        final(dst)@ == old(dst)@ + src@,
{
    let mut i: usize = 0;
    while i < src.len()
        invariant
            i <= src.len(),
            dst@ == old(dst)@ + src@.subrange(0, i as int),
        decreases src.len() - i,
    {
        dst.push(src[i]);
        i = i + 1;
        proof {
            assert(old(dst)@ + src@.subrange(0, i as int)
                =~= (old(dst)@ + src@.subrange(0, i - 1)).push(src@[i - 1]));
        }
    }
    proof {
        assert(src@.subrange(0, src@.len() as int) =~= src@);
    }
}

/// Copies `src[from..to]` into a fresh vector.
pub fn sub_bytes(src: &Vec<u8>, from: usize, to: usize) -> (r: Vec<u8>)
    requires
        from <= to <= src.len(),
    ensures
        r@ == src@.subrange(from as int, to as int),
{
    let mut r: Vec<u8> = Vec::new();
    let mut i: usize = from;
    while i < to
        invariant
            from <= i <= to <= src.len(),
            r@ == src@.subrange(from as int, i as int),
        decreases to - i,
    {
        r.push(src[i]);
        i = i + 1;
        proof {
            assert(src@.subrange(from as int, i as int)
                =~= src@.subrange(from as int, i - 1).push(src@[i - 1]));
        }
    }
    r
}

} // verus!
