//! Byte-range copies used by the decoders.

use vstd::prelude::*;

verus! {

/// A copy of `data[start..end]`.
pub fn copy_range(data: &[u8], start: usize, end: usize) -> (r: Vec<u8>)
    requires
        start <= end <= data@.len(),
    ensures
        r@ == data@.subrange(start as int, end as int),
{
    let mut r: Vec<u8> = Vec::new();
    let mut i = start;
    while i < end
        invariant
            start <= i <= end,
            end <= data@.len(),
            r@ == data@.subrange(start as int, i as int),
        decreases end - i,
    {
        r.push(data[i]);
        i += 1;
        assert(r@ =~= data@.subrange(start as int, i as int));
    }
    r
}

} // verus!
