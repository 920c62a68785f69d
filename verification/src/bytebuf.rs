//! Small verified helpers on byte buffers, shared by the decoders.

use vstd::prelude::*;

verus! {

/// Append the bytes of `src` to `dst`.
pub(crate) fn append_bytes(dst: &mut Vec<u8>, src: &[u8])
    ensures
        final(dst)@ == old(dst)@ + src@,
{
    let mut k: usize = 0;
    while k < src.len()
        invariant
            k <= src.len(),
            dst@ == old(dst)@ + src@.subrange(0, k as int),
        decreases src.len() - k,
    {
        let b = *vstd::slice::slice_index_get(src, k);
        dst.push(b);
        assert(dst@ =~= old(dst)@ + src@.subrange(0, k + 1 as int));
        k = k + 1;
    }
    assert(dst@ =~= old(dst)@ + src@);
}

/// Copy the bytes of `v` between `i` and `j` into a fresh vector.
pub(crate) fn copy_range(v: &Vec<u8>, i: usize, j: usize) -> (out: Vec<u8>)
    requires
        i <= j <= v.len(),
    ensures
        out@ == v@.subrange(i as int, j as int),
{
    let mut out: Vec<u8> = Vec::new();
    let mut k: usize = i;
    while k < j
        invariant
            i <= k <= j <= v.len(),
            out@ == v@.subrange(i as int, k as int),
        decreases j - k,
    {
        out.push(v[k]);
        assert(out@ =~= v@.subrange(i as int, k + 1 as int));
        k = k + 1;
    }
    out
}

} // verus!
