//! Searching a list for the first item that passes a test.
//!
//! The registry is searched front to back, as a reader of the document
//! would: the search ends at the first item that matches, and also at the
//! first item on which the test cannot be made, since what follows such an
//! item is not to be trusted.

use vstd::prelude::*;

verus! {

/// How a search ended.
#[derive(Clone, Copy, Debug, PartialEq, Eq, Structural)]
pub enum Lookup {
    /// The item at this index is the first that matches.
    Found(usize),
    /// An item before any match could not be tested.
    Unreadable,
    /// Every item was tested and none matches.
    Absent,
}

/// Whether the item at `i` is the first that does not plainly fail its test:
/// `tests` holds for each item whether it matches, or nothing where the item
/// could not be tested.
pub open spec fn is_first_hit(tests: Seq<Option<bool>>, i: int) -> bool {
    &&& 0 <= i < tests.len()
    &&& tests[i] != Some(false)
    &&& forall|j: int| 0 <= j < i ==> tests[j] == Some(false)
}

/// How the search over `tests` ends.
pub open spec fn lookup(tests: Seq<Option<bool>>) -> Lookup {
    if exists|i: int| is_first_hit(tests, i) {
        let i = choose|i: int| is_first_hit(tests, i);
        if tests[i] is Some {
            Lookup::Found(i as usize)
        } else {
            Lookup::Unreadable
        }
    } else {
        Lookup::Absent
    }
}

/// A search ends at the first hit, wherever one is known.
pub proof fn lemma_lookup_at(tests: Seq<Option<bool>>, i: int)
    requires
        is_first_hit(tests, i),
        i <= usize::MAX,
    ensures
        lookup(tests) == (if tests[i] is Some {
            Lookup::Found(i as usize)
        } else {
            Lookup::Unreadable
        }),
{
    let k = choose|k: int| is_first_hit(tests, k);
    assert(is_first_hit(tests, k));
    if k < i {
        assert(tests[k] == Some(false));
    }
    if i < k {
        assert(tests[i] == Some(false));
    }
}

/// A search over items that all fail the test finds nothing.
pub proof fn lemma_lookup_absent(tests: Seq<Option<bool>>)
    requires
        forall|j: int| 0 <= j < tests.len() ==> tests[j] == Some(false),
    ensures
        lookup(tests) == Lookup::Absent,
{
}

/// Where a search found an item in a list that a machine can hold, that
/// item matches and all before it fail.
pub proof fn lemma_lookup_found(tests: Seq<Option<bool>>)
    requires
        tests.len() <= usize::MAX,
    ensures
        lookup(tests) matches Lookup::Found(i) ==> is_first_hit(tests, i as int) && tests[i as int]
            == Some(true),
{
    if exists|i: int| is_first_hit(tests, i) {
        let i = choose|i: int| is_first_hit(tests, i);
        assert(is_first_hit(tests, i));
        if tests[i] is Some {
            assert(tests[i] == Some(true));
        }
    }
}

/// A search finds nothing exactly when every item fails the test; it ends
/// unreadable exactly when the first item that does not fail could not be
/// tested, and finds an item exactly when that item matches.
pub proof fn lemma_lookup_meaning(tests: Seq<Option<bool>>)
    ensures
        lookup(tests) == Lookup::Absent <==> forall|j: int|
            0 <= j < tests.len() ==> tests[j] == Some(false),
        lookup(tests) == Lookup::Unreadable <==> exists|i: int|
            is_first_hit(tests, i) && tests[i] is None,
        lookup(tests) is Found <==> exists|i: int|
            is_first_hit(tests, i) && tests[i] == Some(true),
{
    if exists|i: int| is_first_hit(tests, i) {
        let i = choose|i: int| is_first_hit(tests, i);
        assert(is_first_hit(tests, i));
        assert forall|k: int| is_first_hit(tests, k) implies k == i by {
            if k < i {
                assert(tests[k] == Some(false));
            }
            if i < k {
                assert(tests[i] == Some(false));
            }
        }
        if tests[i] is Some {
            assert(tests[i] == Some(true));
        }
    } else {
        assert forall|j: int| 0 <= j < tests.len() implies tests[j] == Some(false) by {
            lemma_no_hit_means_all_fail(tests, j);
        }
    }
}

/// Where no item is a first hit, every item fails its test.
proof fn lemma_no_hit_means_all_fail(tests: Seq<Option<bool>>, j: int)
    requires
        !exists|i: int| is_first_hit(tests, i),
        0 <= j < tests.len(),
    ensures
        tests[j] == Some(false),
    decreases j,
{
    assert forall|k: int| 0 <= k < j implies tests[k] == Some(false) by {
        lemma_no_hit_means_all_fail(tests, k);
    }
    if tests[j] != Some(false) {
        assert(is_first_hit(tests, j));
    }
}

} // verus!
