//! Small verified helpers over byte buffers that the piece types share.

use vstd::prelude::*;
use vstd::slice::slice_subrange;
use vstd::slice::slice_to_vec;

verus! {

/// A sequence of `len` zero bytes: the placeholder contents of every freshly
/// constructed piece type before real data is written in.
pub open spec fn zero_bytes(len: nat) -> Seq<u8> {
    Seq::new(len, |i: int| 0u8)
}

/// Allocate a buffer of `len` zero bytes.
pub fn zero_vec(len: usize) -> (r: Vec<u8>)
    ensures
        r@ == zero_bytes(len as nat),
{
    let mut r: Vec<u8> = Vec::new();
    let mut i: usize = 0;
    while i < len
        invariant
            i <= len,
            r@ == zero_bytes(i as nat),
        decreases len - i,
    {
        r.push(0u8);
        assert(r@ =~= zero_bytes((i + 1) as nat));
        i = i + 1;
    }
    r
}

/// Append all of `src` to the end of `dst`.
pub fn push_all(dst: &mut Vec<u8>, src: &[u8])
    ensures
        final(dst)@ == old(dst)@ + src@,
{
    let mut i: usize = 0;
    while i < src.len()
        invariant
            i <= src@.len(),
            dst@ == old(dst)@ + src@.take(i as int),
        decreases src@.len() - i,
    {
        let b = src[i];
        dst.push(b);
        assert(dst@ =~= old(dst)@ + src@.take((i + 1) as int));
        i = i + 1;
    }
    assert(dst@ =~= old(dst)@ + src@);
}

/// Copy the byte range `[start, start + len)` out of `src` into a fresh
/// buffer.
pub fn copy_range(src: &[u8], start: usize, len: usize) -> (r: Vec<u8>)
    requires
        start + len <= src@.len(),
    ensures
        r@ == src@.subrange(start as int, start as int + len as int),
{
    let total = src.len();
    let end = start + len;
    let sub = slice_subrange(src, start, end);
    slice_to_vec(sub)
}

} // verus!
