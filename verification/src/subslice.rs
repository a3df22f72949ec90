//! Contiguous byte-sequence containment.
//!
//! The worker commits a chunk only when a configured target byte sequence
//! occurs somewhere in it. This module states what an occurrence is and
//! provides the executable search the worker uses for that gate.

use vstd::prelude::*;

verus! {

/// The needle `n` occurs in the haystack `h` starting at offset `i`.
pub open spec fn is_match_at(h: Seq<u8>, n: Seq<u8>, i: int) -> bool {
    &&& 0 <= i
    &&& i + n.len() <= h.len()
    &&& forall|k: int| 0 <= k < n.len() ==> h[i + k] == n[k]
}

/// The needle `n` occurs somewhere in `h` as one contiguous run.
/// An empty needle occurs in every haystack (at offset 0).
pub open spec fn contains_seq(h: Seq<u8>, n: Seq<u8>) -> bool {
    exists|i: int| is_match_at(h, n, i)
}

fn matches_at(h: &Vec<u8>, n: &Vec<u8>, i: usize) -> (r: bool)
    requires
        i + n@.len() <= h@.len(),
    ensures
        r == is_match_at(h@, n@, i as int),
{
    let h_len = h.len();
    let mut k: usize = 0;
    while k < n.len()
        invariant
            0 <= k <= n@.len(),
            i + n@.len() <= h@.len(),
            h@.len() == h_len,
            forall|t: int| 0 <= t < k ==> h@[i + t] == n@[t],
        decreases n@.len() - k,
    {
        if h[i + k] != n[k] {
            assert(!is_match_at(h@, n@, i as int));
            return false;
        }
        k += 1;
    }
    true
}

/// Whether the byte sequence `n` occurs contiguously inside `h`.
pub fn contains_subslice(h: &Vec<u8>, n: &Vec<u8>) -> (r: bool)
    ensures
        r == contains_seq(h@, n@),
{
    if n.len() > h.len() {
        assert(forall|i: int| !is_match_at(h@, n@, i));
        return false;
    }
    if n.len() == 0 {
        assert(is_match_at(h@, n@, 0));
        return true;
    }
    let bound = h.len() - n.len();
    let mut i: usize = 0;
    while i <= bound
        invariant
            bound == h@.len() - n@.len(),
            1 <= n@.len() <= h@.len(),
            h@.len() <= usize::MAX,
            0 <= i <= bound + 1,
            forall|j: int| 0 <= j < i ==> !is_match_at(h@, n@, j),
        decreases bound + 1 - i,
    {
        if matches_at(h, n, i) {
            return true;
        }
        i += 1;
    }
    assert(forall|j: int| !is_match_at(h@, n@, j));
    false
}

} // verus!
