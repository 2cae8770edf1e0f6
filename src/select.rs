//! Selection of the best icon among classification results.

use crate::error::{Error, ScrapeError};
use crate::icon::{size_le, Icon, Size};
use vstd::prelude::*;

verus! {

/// The dimensions of a successful result.
pub open spec fn dims(r: Result<Icon, Error>) -> Size {
    r->Ok_0.dimensions
}

/// The position of the icon that selection picks among `s`: the last of the
/// successful results whose dimensions are largest, or -1 where none succeeded.
/// This is the last element of a stable ascending sort of the successes.
pub open spec fn best_index(s: Seq<Result<Icon, Error>>) -> int
    decreases s.len(),
{
    if s.len() == 0 {
        -1
    } else {
        let p = best_index(s.drop_last());
        if s.last() is Ok && (p < 0 || size_le(dims(s[p]), dims(s.last()))) {
            s.len() - 1
        } else {
            p
        }
    }
}

/// What `best_index` picks is a success of largest dimensions, and every later
/// success is strictly smaller; it is -1 exactly where nothing succeeded.
pub proof fn lemma_best_index(s: Seq<Result<Icon, Error>>)
    ensures
        -1 <= best_index(s) < s.len(),
        best_index(s) < 0 <==> forall|i: int| 0 <= i < s.len() ==> s[i] is Err,
        best_index(s) >= 0 ==> {
            let b = best_index(s);
            &&& s[b] is Ok
            &&& forall|i: int| 0 <= i < s.len() && s[i] is Ok ==> size_le(#[trigger] dims(s[i]), dims(s[b]))
            &&& forall|i: int| b < i < s.len() && s[i] is Ok ==> !size_le(dims(s[b]), #[trigger] dims(s[i]))
        },
    decreases s.len(),
{
    if s.len() > 0 {
        let t = s.drop_last();
        lemma_best_index(t);
        assert forall|i: int| 0 <= i < t.len() implies t[i] == s[i] by {}
    }
}

/// A success of `t` that also occurs in `u`, when both hold the same results,
/// orders at or below what selection picks from `u`.
proof fn lemma_shared_bounded(t: Seq<Result<Icon, Error>>, u: Seq<Result<Icon, Error>>, i: int)
    requires
        t.to_multiset() =~= u.to_multiset(),
        0 <= i < t.len(),
        t[i] is Ok,
    ensures
        best_index(u) >= 0,
        size_le(dims(t[i]), dims(u[best_index(u)])),
{
    broadcast use vstd::seq_lib::group_to_multiset_ensures;
    lemma_best_index(u);
    let x = t[i];
    assert(t.contains(x));
    assert(t.to_multiset().count(x) > 0);
    assert(u.contains(x));
    let j = choose|j: int| 0 <= j < u.len() && u[j] == x;
    assert(dims(u[j]) == dims(x));
}

/// Selection is independent of the order of the results as far as dimensions
/// go: results that are a reordering of one another both fail, or both select
/// an icon of the same dimensions. Only which of several equally large icons
/// wins depends on the order.
pub proof fn lemma_selected_dimensions_order_independent(
    s1: Seq<Result<Icon, Error>>,
    s2: Seq<Result<Icon, Error>>,
)
    requires
        s1.to_multiset() =~= s2.to_multiset(),
    ensures
        (best_index(s1) < 0) == (best_index(s2) < 0),
        best_index(s1) >= 0 ==> dims(s1[best_index(s1)]) == dims(s2[best_index(s2)]),
{
    lemma_best_index(s1);
    lemma_best_index(s2);
    if best_index(s1) >= 0 {
        lemma_shared_bounded(s1, s2, best_index(s1));
        lemma_shared_bounded(s2, s1, best_index(s2));
    } else if best_index(s2) >= 0 {
        lemma_shared_bounded(s2, s1, best_index(s2));
    }
}

/// Picks the best icon among classification results: failures are skipped,
/// successes are ordered by their dimensions (width, then height), and the last
/// of the largest wins. Fails with `NoIconsFound` exactly when no result is a
/// success.
pub fn select_best(results: Vec<Result<Icon, Error>>) -> (r: Result<Icon, Error>)
    ensures
        best_index(results@) < 0 ==> r matches Err(Error::Scrape(ScrapeError::NoIconsFound)),
        best_index(results@) >= 0 ==> r == results@[best_index(results@)],
        r matches Err(Error::Scrape(ScrapeError::NoIconsFound)) <==> forall|i: int|
            0 <= i < results@.len() ==> results@[i] is Err,
        r matches Ok(icon) ==> forall|i: int| 0 <= i < results@.len() && results@[i] is Ok
            ==> size_le(#[trigger] dims(results@[i]), icon.dimensions),
{
    let mut results = results;
    let ghost s = results@;
    let mut best: usize = 0;
    let mut found = false;
    let mut i: usize = 0;
    while i < results.len()
        invariant
            s == results@,
            i <= s.len(),
            found <==> best_index(s.subrange(0, i as int)) >= 0,
            found ==> best == best_index(s.subrange(0, i as int)),
        decreases s.len() - i,
    {
        let ghost prefix = s.subrange(0, i + 1);
        assert(prefix.drop_last() =~= s.subrange(0, i as int));
        proof {
            lemma_best_index(s.subrange(0, i as int));
        }
        match &results[i] {
            Ok(icon) => {
                if !found {
                    best = i;
                    found = true;
                } else {
                    match &results[best] {
                        Ok(b) => {
                            assert(prefix[best as int] == s[best as int]);
                            if b.dimensions.at_most(&icon.dimensions) {
                                best = i;
                            }
                        },
                        Err(_) => {},
                    }
                }
            },
            Err(_) => {},
        }
        i += 1;
    }
    assert(s.subrange(0, i as int) =~= s);
    proof {
        lemma_best_index(s);
    }
    if found {
        results.swap_remove(best)
    } else {
        Err(Error::Scrape(ScrapeError::NoIconsFound))
    }
}

} // verus!
