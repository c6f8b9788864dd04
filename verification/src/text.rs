//! Verified substring search over strings.

use vstd::prelude::*;
use vstd::string::StrSliceExecFns;

verus! {

/// The needle `n` occurs in the haystack `h` starting at position `i`.
pub open spec fn contains_at(h: Seq<char>, n: Seq<char>, i: int) -> bool {
    &&& 0 <= i
    &&& i + n.len() <= h.len()
    &&& h.subrange(i, i + n.len()) == n
}

/// The needle `n` occurs somewhere in the haystack `h`.
pub open spec fn contains_sub(h: Seq<char>, n: Seq<char>) -> bool {
    exists|i: int| contains_at(h, n, i)
}

/// Whether the needle matches the haystack at position `i`.
fn match_at(h: &str, n: &str, i: usize, hlen: usize) -> (b: bool)
    requires
        hlen == h@.len(),
        i + n@.len() <= h@.len(),
    ensures
        b == contains_at(h@, n@, i as int),
{
    let nlen = n.unicode_len();
    let mut j: usize = 0;
    while j < nlen
        invariant
            j <= nlen,
            nlen == n@.len(),
            hlen == h@.len(),
            i + nlen <= h@.len(),
            forall|l: int| 0 <= l < j ==> h@[i + l] == n@[l],
        decreases nlen - j,
    {
        if h.get_char(i + j) != n.get_char(j) {
            proof {
                if contains_at(h@, n@, i as int) {
                    assert(n@[j as int] == h@.subrange(i as int, i + nlen)[j as int]);
                }
            }
            return false;
        }
        j = j + 1;
    }
    proof {
        assert(h@.subrange(i as int, i + nlen) =~= n@);
    }
    true
}

/// Whether `n` occurs as a contiguous substring of `h`.
pub fn str_contains(h: &str, n: &str) -> (b: bool)
    ensures
        b == contains_sub(h@, n@),
{
    let hlen = h.unicode_len();
    let nlen = n.unicode_len();
    if nlen == 0 {
        proof {
            assert(h@.subrange(0, 0) =~= n@);
            assert(contains_at(h@, n@, 0));
        }
        return true;
    }
    if nlen > hlen {
        proof {
            if contains_sub(h@, n@) {
                let i = choose|i: int| contains_at(h@, n@, i);
            }
        }
        return false;
    }
    let mut i: usize = 0;
    while i <= hlen - nlen
        invariant
            1 <= nlen <= hlen,
            hlen == h@.len(),
            nlen == n@.len(),
            i <= hlen - nlen + 1,
            forall|k: int| 0 <= k < i ==> !contains_at(h@, n@, k),
        decreases hlen - nlen - i + 1,
    {
        if match_at(h, n, i, hlen) {
            return true;
        }
        i = i + 1;
    }
    proof {
        if contains_sub(h@, n@) {
            let k = choose|k: int| contains_at(h@, n@, k);
            assert(k < i);
        }
    }
    false
}

} // verus!
