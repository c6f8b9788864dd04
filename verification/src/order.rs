//! Lexicographic order on strings, a verified three-way comparison, and a
//! verified binary search used for the membership tests of the lookup tables.

use vstd::prelude::*;
use vstd::string::StrSliceExecFns;

verus! {

/// Witness predicate for the strict order: `a` and `b` agree before position
/// `i`, and at `i` either `a` ends while `b` continues or `a`'s character is
/// the smaller code point.
pub open spec fn lt_at(a: Seq<char>, b: Seq<char>, i: int) -> bool {
    &&& 0 <= i <= a.len()
    &&& i <= b.len()
    &&& forall|j: int| 0 <= j < i ==> a[j] == b[j]
    &&& ((i == a.len() && i < b.len()) || (i < a.len() && i < b.len() && (a[i] as u32) < (
    b[i] as u32)))
}

/// Strict lexicographic order on character sequences, by code point.
pub open spec fn str_lt(a: Seq<char>, b: Seq<char>) -> bool {
    exists|i: int| lt_at(a, b, i)
}

/// Non-strict lexicographic order.
pub open spec fn str_le(a: Seq<char>, b: Seq<char>) -> bool {
    str_lt(a, b) || a == b
}

/// A table is sorted when every entry is at most its successor; equal
/// neighbours are allowed, since tables are not deduplicated by construction.
pub open spec fn sorted_adjacent(t: Seq<Seq<char>>) -> bool {
    forall|i: int| 0 <= i && i + 1 < t.len() ==> str_le(#[trigger] t[i], t[i + 1])
}

/// Membership of a string among the entries of a table.
pub open spec fn contains_str(t: Seq<Seq<char>>, x: Seq<char>) -> bool {
    exists|k: int| 0 <= k < t.len() && #[trigger] t[k] == x
}

/// The abstract contents of an executable table of string slices.
pub open spec fn table_view(t: Seq<&str>) -> Seq<Seq<char>> {
    t.map_values(|s: &str| s@)
}

pub proof fn lemma_str_lt_irrefl(a: Seq<char>)
    ensures
        !str_lt(a, a),
{
    if str_lt(a, a) {
        let i = choose|i: int| lt_at(a, a, i);
        assert(false);
    }
}

pub proof fn lemma_str_lt_trans(a: Seq<char>, b: Seq<char>, c: Seq<char>)
    requires
        str_lt(a, b),
        str_lt(b, c),
    ensures
        str_lt(a, c),
{
    let i = choose|i: int| lt_at(a, b, i);
    let j = choose|j: int| lt_at(b, c, j);
    let k = if i <= j {
        i
    } else {
        j
    };
    assert forall|m: int| 0 <= m < k implies a[m] == c[m] by {
        assert(a[m] == b[m]);
        assert(b[m] == c[m]);
    }
    if i < j {
        assert(lt_at(a, c, i));
    } else if j < i {
        assert(lt_at(a, c, j));
    } else {
        assert(lt_at(a, c, i));
    }
}

pub proof fn lemma_str_le_trans(a: Seq<char>, b: Seq<char>, c: Seq<char>)
    requires
        str_le(a, b),
        str_le(b, c),
    ensures
        str_le(a, c),
{
    if str_lt(a, b) && str_lt(b, c) {
        lemma_str_lt_trans(a, b, c);
    }
}

pub proof fn lemma_str_le_lt_trans(a: Seq<char>, b: Seq<char>, c: Seq<char>)
    requires
        str_le(a, b),
        str_lt(b, c),
    ensures
        str_lt(a, c),
{
    if str_lt(a, b) {
        lemma_str_lt_trans(a, b, c);
    }
}

pub proof fn lemma_str_lt_le_trans(a: Seq<char>, b: Seq<char>, c: Seq<char>)
    requires
        str_lt(a, b),
        str_le(b, c),
    ensures
        str_lt(a, c),
{
    if str_lt(b, c) {
        lemma_str_lt_trans(a, b, c);
    }
}

/// In a sorted table every entry is at most any later entry.
pub proof fn lemma_sorted_range(t: Seq<Seq<char>>, i: int, j: int)
    requires
        sorted_adjacent(t),
        0 <= i <= j < t.len(),
    ensures
        str_le(t[i], t[j]),
    decreases j - i,
{
    if i < j {
        lemma_sorted_range(t, i, j - 1);
        lemma_str_le_trans(t[i], t[j - 1], t[j]);
    }
}

/// The result of a three-way string comparison.
#[derive(Clone, Copy, Debug, PartialEq, Eq, Structural)]
pub enum StrOrder {
    Less,
    Equal,
    Greater,
}

/// Three-way comparison of two strings in lexicographic code-point order.
pub fn cmp_str(a: &str, b: &str) -> (o: StrOrder)
    ensures
        (o matches StrOrder::Less ==> str_lt(a@, b@)),
        (o matches StrOrder::Equal ==> a@ == b@),
        (o matches StrOrder::Greater ==> str_lt(b@, a@)),
{
    let alen = a.unicode_len();
    let blen = b.unicode_len();
    let mut i: usize = 0;
    loop
        invariant
            i <= alen,
            i <= blen,
            alen == a@.len(),
            blen == b@.len(),
            forall|j: int| 0 <= j < i ==> a@[j] == b@[j],
        decreases alen - i,
    {
        if i == alen && i == blen {
            proof {
                assert(a@ =~= b@);
            }
            return StrOrder::Equal;
        }
        if i == alen {
            proof {
                assert(lt_at(a@, b@, i as int));
            }
            return StrOrder::Less;
        }
        if i == blen {
            proof {
                assert(lt_at(b@, a@, i as int));
            }
            return StrOrder::Greater;
        }
        let ca = a.get_char(i);
        let cb = b.get_char(i);
        if (ca as u32) < (cb as u32) {
            proof {
                assert(lt_at(a@, b@, i as int));
            }
            return StrOrder::Less;
        }
        if (cb as u32) < (ca as u32) {
            proof {
                assert(lt_at(b@, a@, i as int));
            }
            return StrOrder::Greater;
        }
        i = i + 1;
    }
}

/// String equality, decided through the three-way comparison.
pub fn str_eq(a: &str, b: &str) -> (r: bool)
    ensures
        r == (a@ == b@),
{
    match cmp_str(a, b) {
        StrOrder::Equal => true,
        StrOrder::Less => {
            proof {
                if a@ == b@ {
                    lemma_str_lt_irrefl(a@);
                }
            }
            false
        },
        StrOrder::Greater => {
            proof {
                if a@ == b@ {
                    lemma_str_lt_irrefl(a@);
                }
            }
            false
        },
    }
}

/// Binary search for `target` in a sorted table; reports exactly membership.
pub fn lookup(table: &Vec<&str>, target: &str) -> (found: bool)
    requires
        sorted_adjacent(table_view(table@)),
    ensures
        found == contains_str(table_view(table@), target@),
{
    let ghost t = table_view(table@);
    let ghost x = target@;
    let mut lo: usize = 0;
    let mut hi: usize = table.len();
    while lo < hi
        invariant
            lo <= hi <= table@.len(),
            t == table_view(table@),
            x == target@,
            sorted_adjacent(t),
            t.len() == table@.len(),
            forall|k: int| 0 <= k < t.len() && #[trigger] t[k] == x ==> lo <= k < hi,
        decreases hi - lo,
    {
        let mid = lo + (hi - lo) / 2;
        let entry: &str = table[mid];
        match cmp_str(entry, target) {
            StrOrder::Less => {
                proof {
                    assert forall|k: int| lo <= k <= mid && #[trigger] t[k] == x implies false by {
                        lemma_sorted_range(t, k, mid as int);
                        lemma_str_le_lt_trans(x, t[mid as int], x);
                        lemma_str_lt_irrefl(x);
                    }
                }
                lo = mid + 1;
            },
            StrOrder::Equal => {
                proof {
                    assert(t[mid as int] == x);
                }
                return true;
            },
            StrOrder::Greater => {
                proof {
                    assert forall|k: int| mid <= k < hi && #[trigger] t[k] == x implies false by {
                        lemma_sorted_range(t, mid as int, k);
                        lemma_str_lt_le_trans(x, t[mid as int], x);
                        lemma_str_lt_irrefl(x);
                    }
                }
                hi = mid;
            },
        }
    }
    proof {
        if contains_str(t, x) {
            let k = choose|k: int| 0 <= k < t.len() && t[k] == x;
            assert(false);
        }
    }
    false
}

} // verus!
