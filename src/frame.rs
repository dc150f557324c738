//! Per-frame bookkeeping of the render pass that does not touch geometry.

use vstd::prelude::*;

verus! {

/// The first index of every complete triangle in a flat vertex list of length
/// `len`, whose consecutive triples are triangles; a trailing partial
/// triple is left out.
pub fn triangle_starts(len: usize) -> (r: Vec<usize>)
    ensures
        r@.len() == len / 3,
        forall|t: int| 0 <= t < r@.len() ==> #[trigger] r@[t] == 3 * t,
{
    let mut r: Vec<usize> = Vec::new();
    let mut i: usize = 0;
    while i < len && len - i > 2
        invariant
            i % 3 == 0,
            i <= len,
            r@.len() == i / 3,
            i / 3 <= len / 3,
            len - i <= 2 ==> r@.len() == len / 3,
            forall|t: int| 0 <= t < r@.len() ==> #[trigger] r@[t] == 3 * t,
        decreases len - i,
    {
        r.push(i);
        i = i + 3;
    }
    r
}

} // verus!
