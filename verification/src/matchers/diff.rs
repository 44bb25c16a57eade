//! The first place at which two sequences differ.
use vstd::prelude::*;

verus! {

/// How a sequence differs from the one that was expected.
#[derive(Debug, Clone, Copy, PartialEq, Eq, Structural)]
pub enum SeqDiff {
    /// The two differ at this index, and agree before it.
    FirstMismatch(usize),
    /// The expected sequence has only this many elements; the other agrees
    /// with it on them and goes on.
    Shorter(usize),
    /// The sequence has only this many elements; the expected one agrees
    /// with it on them and goes on.
    Longer(usize),
}

/// The first index from `from` on at which both sequences have an element
/// and the two are not the same.
pub open spec fn mismatch_from<T>(
    actual: Seq<T>,
    expected: Seq<T>,
    same: spec_fn(T, T) -> bool,
    from: int,
) -> Option<int>
    decreases actual.len() - from,
{
    if from < 0 || from >= actual.len() || from >= expected.len() {
        None
    } else if !same(actual[from], expected[from]) {
        Some(from)
    } else {
        mismatch_from(actual, expected, same, from + 1)
    }
}

/// How `actual` differs from `expected`, element by element under `same`:
/// the first index at which they differ; else, where one is longer, the
/// length of the shorter; else nothing.
pub open spec fn spec_diff<T>(actual: Seq<T>, expected: Seq<T>, same: spec_fn(T, T) -> bool)
    -> Option<SeqDiff> {
    match mismatch_from(actual, expected, same, 0) {
        Some(i) => Some(SeqDiff::FirstMismatch(i as usize)),
        None => if actual.len() > expected.len() {
            Some(SeqDiff::Shorter(expected.len() as usize))
        } else if expected.len() > actual.len() {
            Some(SeqDiff::Longer(actual.len() as usize))
        } else {
            None
        },
    }
}

/// Whether the two sequences are the same under `same` on their first `n`
/// elements.
pub open spec fn agree_before<T>(
    actual: Seq<T>,
    expected: Seq<T>,
    same: spec_fn(T, T) -> bool,
    n: int,
) -> bool {
    forall|k: int| 0 <= k < n ==> #[trigger] same(actual[k], expected[k])
}

/// Whether `diff` says truly how `actual` differs from `expected`, where
/// `same` holds of the pairs that were found equal and `differ` of those
/// that were found not equal.
pub open spec fn describes<T>(
    diff: Option<SeqDiff>,
    actual: Seq<T>,
    expected: Seq<T>,
    same: spec_fn(T, T) -> bool,
    differ: spec_fn(T, T) -> bool,
) -> bool {
    match diff {
        Some(SeqDiff::FirstMismatch(i)) => {
            &&& i < actual.len()
            &&& i < expected.len()
            &&& differ(actual[i as int], expected[i as int])
            &&& agree_before(actual, expected, same, i as int)
        },
        Some(SeqDiff::Shorter(n)) => {
            &&& n == expected.len()
            &&& expected.len() < actual.len()
            &&& agree_before(actual, expected, same, n as int)
        },
        Some(SeqDiff::Longer(n)) => {
            &&& n == actual.len()
            &&& actual.len() < expected.len()
            &&& agree_before(actual, expected, same, n as int)
        },
        None => {
            &&& actual.len() == expected.len()
            &&& agree_before(actual, expected, same, actual.len() as int)
        },
    }
}

/// Where the sequences agree from `from` up to `until`, the first mismatch
/// from `from` on is the first from `until` on.
pub proof fn lemma_mismatch_skips<T>(
    actual: Seq<T>,
    expected: Seq<T>,
    same: spec_fn(T, T) -> bool,
    from: int,
    until: int,
)
    requires
        0 <= from <= until,
        until <= actual.len(),
        until <= expected.len(),
        agree_before(actual, expected, same, until),
    ensures
        mismatch_from(actual, expected, same, from) == mismatch_from(
            actual,
            expected,
            same,
            until,
        ),
    decreases until - from,
{
    if from < until {
        assert(same(actual[from], expected[from]));
        lemma_mismatch_skips(actual, expected, same, from + 1, until);
    }
}

/// There is one true description of how two sequences differ.
pub proof fn lemma_describes_is_diff<T>(
    diff: Option<SeqDiff>,
    actual: Seq<T>,
    expected: Seq<T>,
    same: spec_fn(T, T) -> bool,
    found_same: spec_fn(T, T) -> bool,
    found_differ: spec_fn(T, T) -> bool,
)
    requires
        describes(diff, actual, expected, found_same, found_differ),
        forall|a: T, b: T| #[trigger] found_same(a, b) ==> same(a, b),
        forall|a: T, b: T| #[trigger] found_differ(a, b) ==> !same(a, b),
    ensures
        diff == spec_diff(actual, expected, same),
{
    match diff {
        Some(SeqDiff::FirstMismatch(i)) => {
            assert(agree_before(actual, expected, same, i as int)) by {
                assert forall|k: int| 0 <= k < i implies #[trigger] same(
                    actual[k],
                    expected[k],
                ) by {
                    assert(found_same(actual[k], expected[k]));
                }
            }
            lemma_mismatch_skips(actual, expected, same, 0, i as int);
        },
        Some(SeqDiff::Shorter(n)) => {
            assert(agree_before(actual, expected, same, n as int)) by {
                assert forall|k: int| 0 <= k < n implies #[trigger] same(
                    actual[k],
                    expected[k],
                ) by {
                    assert(found_same(actual[k], expected[k]));
                }
            }
            lemma_mismatch_skips(actual, expected, same, 0, n as int);
        },
        Some(SeqDiff::Longer(n)) => {
            assert(agree_before(actual, expected, same, n as int)) by {
                assert forall|k: int| 0 <= k < n implies #[trigger] same(
                    actual[k],
                    expected[k],
                ) by {
                    assert(found_same(actual[k], expected[k]));
                }
            }
            lemma_mismatch_skips(actual, expected, same, 0, n as int);
        },
        None => {
            assert(agree_before(actual, expected, same, actual.len() as int)) by {
                assert forall|k: int| 0 <= k < actual.len() implies #[trigger] same(
                    actual[k],
                    expected[k],
                ) by {
                    assert(found_same(actual[k], expected[k]));
                }
            }
            lemma_mismatch_skips(actual, expected, same, 0, actual.len() as int);
        },
    }
}

/// The first mismatch from `from` on, where there is one, lies in both
/// sequences, at `from` or after it; the two differ there, and agree from
/// `from` up to it. Where there is none, they agree as far as both go.
pub proof fn lemma_mismatch_from<T>(
    actual: Seq<T>,
    expected: Seq<T>,
    same: spec_fn(T, T) -> bool,
    from: int,
)
    requires
        0 <= from,
    ensures
        match mismatch_from(actual, expected, same, from) {
            Some(i) => from <= i < actual.len() && i < expected.len() && !same(
                actual[i],
                expected[i],
            ) && forall|k: int| from <= k < i ==> #[trigger] same(actual[k], expected[k]),
            None => forall|k: int|
                from <= k < actual.len() && k < expected.len() ==> #[trigger] same(
                    actual[k],
                    expected[k],
                ),
        },
    decreases actual.len() - from,
{
    if from < actual.len() && from < expected.len() && same(actual[from], expected[from]) {
        lemma_mismatch_from(actual, expected, same, from + 1);
    }
}

/// What the difference of two sequences holds is an index into both, or a
/// length below that of the longer one.
pub proof fn lemma_diff_in_range<T>(actual: Seq<T>, expected: Seq<T>, same: spec_fn(T, T) -> bool)
    requires
        actual.len() <= usize::MAX,
        expected.len() <= usize::MAX,
    ensures
        match spec_diff(actual, expected, same) {
            Some(SeqDiff::FirstMismatch(i)) => i < actual.len() && i < expected.len(),
            Some(SeqDiff::Shorter(n)) => n == expected.len() && n < actual.len(),
            Some(SeqDiff::Longer(n)) => n == actual.len() && n < expected.len(),
            None => actual.len() == expected.len(),
        },
{
    lemma_mismatch_from(actual, expected, same, 0);
}

/// Two sequences do not differ exactly where they are of one length and the
/// same at each index.
pub proof fn lemma_no_diff_iff_agree<T>(
    actual: Seq<T>,
    expected: Seq<T>,
    same: spec_fn(T, T) -> bool,
)
    ensures
        spec_diff(actual, expected, same).is_none() <==> (actual.len() == expected.len()
            && agree_before(actual, expected, same, actual.len() as int)),
{
    lemma_mismatch_from(actual, expected, same, 0);
}

/// `itertools::diff_with` on the elements of two vectors: it walks the two
/// in step and calls `is_equal` on each pair until it answers `false` for
/// one or one of the vectors ends. The result is the index of the pair for
/// which it answered `false`; else the length of `expected` where only
/// `actual` goes on, or the length of `actual` where only `expected` goes
/// on; else nothing. It answered `true` for every pair before that.
#[verifier::external_body]
pub(crate) fn diff_with<T, F: Fn(&T, &T) -> bool>(
    actual: &Vec<T>,
    expected: &Vec<T>,
    is_equal: F,
) -> (r: Option<SeqDiff>)
    requires
        forall|a: &T, b: &T| call_requires(is_equal, (a, b)),
    ensures
        describes(
            r,
            actual@,
            expected@,
            |a: T, b: T| call_ensures(is_equal, (&a, &b), true),
            |a: T, b: T| call_ensures(is_equal, (&a, &b), false),
        ),
{
    match itertools::diff_with(actual.iter(), expected.iter(), |a, b| is_equal(*a, *b)) {
        Some(itertools::Diff::FirstMismatch(index, _, _)) => Some(SeqDiff::FirstMismatch(index)),
        Some(itertools::Diff::Shorter(count, _)) => Some(SeqDiff::Shorter(count)),
        Some(itertools::Diff::Longer(count, _)) => Some(SeqDiff::Longer(count)),
        None => None,
    }
}

} // verus!
