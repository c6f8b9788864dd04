//! Static lookup tables: sorted, immutable string vocabularies with
//! binary-search membership tests.  Sortedness is proved once and for all,
//! so a maintenance slip that breaks the order cannot verify.

use vstd::prelude::*;

use crate::order::contains_str;
use crate::order::lookup;
use crate::order::lt_at;
use crate::order::sorted_adjacent;
use crate::order::str_le;
use crate::order::table_view;

verus! {

/// The array instance method and property names that the argument-collection
/// object does not offer: the enumeration, mutation and query vocabulary,
/// including the iteration-protocol symbol key.  Inherited object methods and
/// the methods that are also meaningful on array-like objects are deliberately
/// absent.  The sequence is sorted, but not deduplicated by construction.
pub open spec fn array_methods_spec() -> Seq<Seq<char>> {
    seq![
        "@@iterator"@,
        "at"@,
        "concat"@,
        "copyWithin"@,
        "entries"@,
        "every"@,
        "fill"@,
        "filter"@,
        "find"@,
        "findIndex"@,
        "flat"@,
        "flatMap"@,
        "forEach"@,
        "includes"@,
        "indexOf"@,
        "join"@,
        "keys"@,
        "lastIndexOf"@,
        "map"@,
        "pop"@,
        "push"@,
        "push"@,
        "reduce"@,
        "reduceRight"@,
        "reverse"@,
        "shift"@,
        "slice"@,
        "some"@,
        "sort"@,
        "splice"@,
        "unshift"@,
        "values"@,
    ]
}

/// The executable array-method table, with exactly the specified contents.
pub fn array_methods() -> (t: Vec<&'static str>)
    ensures
        table_view(t@) =~= array_methods_spec(),
{
    let mut t: Vec<&'static str> = Vec::new();
    t.push("@@iterator");
    t.push("at");
    t.push("concat");
    t.push("copyWithin");
    t.push("entries");
    t.push("every");
    t.push("fill");
    t.push("filter");
    t.push("find");
    t.push("findIndex");
    t.push("flat");
    t.push("flatMap");
    t.push("forEach");
    t.push("includes");
    t.push("indexOf");
    t.push("join");
    t.push("keys");
    t.push("lastIndexOf");
    t.push("map");
    t.push("pop");
    t.push("push");
    t.push("push");
    t.push("reduce");
    t.push("reduceRight");
    t.push("reverse");
    t.push("shift");
    t.push("slice");
    t.push("some");
    t.push("sort");
    t.push("splice");
    t.push("unshift");
    t.push("values");
    proof {
        assert(table_view(t@) =~= array_methods_spec());
    }
    t
}

/// The array-method table equals its own sorted form: it is a permutation of
/// itself in non-decreasing order, so the stored sequence is already sorted.
pub proof fn lemma_array_methods_sorted()
    ensures
        sorted_adjacent(array_methods_spec()),
{
    reveal_strlit("@@iterator");
    reveal_strlit("at");
    reveal_strlit("concat");
    reveal_strlit("copyWithin");
    reveal_strlit("entries");
    reveal_strlit("every");
    reveal_strlit("fill");
    reveal_strlit("filter");
    reveal_strlit("find");
    reveal_strlit("findIndex");
    reveal_strlit("flat");
    reveal_strlit("flatMap");
    reveal_strlit("forEach");
    reveal_strlit("includes");
    reveal_strlit("indexOf");
    reveal_strlit("join");
    reveal_strlit("keys");
    reveal_strlit("lastIndexOf");
    reveal_strlit("map");
    reveal_strlit("pop");
    reveal_strlit("push");
    reveal_strlit("reduce");
    reveal_strlit("reduceRight");
    reveal_strlit("reverse");
    reveal_strlit("shift");
    reveal_strlit("slice");
    reveal_strlit("some");
    reveal_strlit("sort");
    reveal_strlit("splice");
    reveal_strlit("unshift");
    reveal_strlit("values");
    let t = array_methods_spec();
    assert forall|i: int| 0 <= i && i + 1 < t.len() implies str_le(#[trigger] t[i], t[i + 1]) by {
        if i == 0 {
            assert(lt_at(t[0], t[1], 0));
        } else if i == 1 {
            assert(lt_at(t[1], t[2], 0));
        } else if i == 2 {
            assert(lt_at(t[2], t[3], 2));
        } else if i == 3 {
            assert(lt_at(t[3], t[4], 0));
        } else if i == 4 {
            assert(lt_at(t[4], t[5], 1));
        } else if i == 5 {
            assert(lt_at(t[5], t[6], 0));
        } else if i == 6 {
            assert(lt_at(t[6], t[7], 3));
        } else if i == 7 {
            assert(lt_at(t[7], t[8], 2));
        } else if i == 8 {
            assert(lt_at(t[8], t[9], 4));
        } else if i == 9 {
            assert(lt_at(t[9], t[10], 1));
        } else if i == 10 {
            assert(lt_at(t[10], t[11], 4));
        } else if i == 11 {
            assert(lt_at(t[11], t[12], 1));
        } else if i == 12 {
            assert(lt_at(t[12], t[13], 0));
        } else if i == 13 {
            assert(lt_at(t[13], t[14], 2));
        } else if i == 14 {
            assert(lt_at(t[14], t[15], 0));
        } else if i == 15 {
            assert(lt_at(t[15], t[16], 0));
        } else if i == 16 {
            assert(lt_at(t[16], t[17], 0));
        } else if i == 17 {
            assert(lt_at(t[17], t[18], 0));
        } else if i == 18 {
            assert(lt_at(t[18], t[19], 0));
        } else if i == 19 {
            assert(lt_at(t[19], t[20], 1));
        } else if i == 20 {
            assert(t[20] == t[21]);
        } else if i == 21 {
            assert(lt_at(t[21], t[22], 0));
        } else if i == 22 {
            assert(lt_at(t[22], t[23], 6));
        } else if i == 23 {
            assert(lt_at(t[23], t[24], 2));
        } else if i == 24 {
            assert(lt_at(t[24], t[25], 0));
        } else if i == 25 {
            assert(lt_at(t[25], t[26], 1));
        } else if i == 26 {
            assert(lt_at(t[26], t[27], 1));
        } else if i == 27 {
            assert(lt_at(t[27], t[28], 2));
        } else if i == 28 {
            assert(lt_at(t[28], t[29], 1));
        } else if i == 29 {
            assert(lt_at(t[29], t[30], 0));
        } else {
            assert(lt_at(t[30], t[31], 0));
        }
    }
}

/// Whether a property name belongs to the array-method vocabulary.
pub open spec fn in_array_vocab(name: Seq<char>) -> bool {
    contains_str(array_methods_spec(), name)
}

/// Binary-search membership test against the array-method vocabulary.
pub fn is_array_method(name: &str) -> (b: bool)
    ensures
        b == in_array_vocab(name@),
{
    let t = array_methods();
    proof {
        lemma_array_methods_sorted();
    }
    lookup(&t, name)
}

/// The conformance error codes that are knowingly not yet supported.
pub open spec fn not_supported_error_codes_spec() -> Seq<Seq<char>> {
    seq!["2315"@]
}

/// The executable table of not-yet-supported conformance error codes.
pub fn not_supported_error_codes() -> (t: Vec<&'static str>)
    ensures
        table_view(t@) =~= not_supported_error_codes_spec(),
{
    let mut t: Vec<&'static str> = Vec::new();
    t.push("2315");
    proof {
        assert(table_view(t@) =~= not_supported_error_codes_spec());
    }
    t
}

/// The error-code table equals its own sorted form as well.
pub proof fn lemma_not_supported_error_codes_sorted()
    ensures
        sorted_adjacent(not_supported_error_codes_spec()),
{
}

/// Membership test against the not-yet-supported error-code table.
pub fn is_not_supported_error_code(code: &str) -> (b: bool)
    ensures
        b == contains_str(not_supported_error_codes_spec(), code@),
{
    let t = not_supported_error_codes();
    proof {
        lemma_not_supported_error_codes_sorted();
    }
    lookup(&t, code)
}

} // verus!
