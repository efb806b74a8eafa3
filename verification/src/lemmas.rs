//! Facts that the proofs of the stages rest on: about filtering a sequence,
//! about its first match, and about the names of a string table.

use vstd::prelude::*;

use crate::model::{collect_names, first_match, is_name_end, name_end};
use crate::types::DynSectionElement;

verus! {

/// A prefix one longer is the shorter prefix with the next element pushed.
pub proof fn lemma_take_push<A>(s: Seq<A>, i: int)
    requires
        0 <= i < s.len(),
    ensures
        s.take(i + 1) == s.take(i).push(s[i]),
{
    assert(s.take(i + 1) =~= s.take(i).push(s[i]));
}

/// Filtering after a push keeps or drops the pushed element by the test.
pub proof fn lemma_filter_push<A>(s: Seq<A>, x: A, pred: spec_fn(A) -> bool)
    ensures
        s.push(x).filter(pred) == if pred(x) {
            s.filter(pred).push(x)
        } else {
            s.filter(pred)
        },
{
    reveal(Seq::filter);
    assert(s.push(x).drop_last() =~= s);
}

/// Nothing of an empty sequence passes a filter.
pub proof fn lemma_filter_empty<A>(pred: spec_fn(A) -> bool)
    ensures
        Seq::<A>::empty().filter(pred) == Seq::<A>::empty(),
        first_match(Seq::<A>::empty(), pred) == None::<A>,
{
    reveal(Seq::filter);
}

/// The first match after a push is the first match before it, or else the
/// pushed element where it passes the test.
pub proof fn lemma_first_match_push<A>(s: Seq<A>, x: A, pred: spec_fn(A) -> bool)
    ensures
        first_match(s.push(x), pred) == match first_match(s, pred) {
            Some(y) => Some(y),
            None => if pred(x) {
                Some(x)
            } else {
                None
            },
        },
{
    lemma_filter_push(s, x, pred);
}

/// A match found in a prefix is the first match of the whole sequence.
pub proof fn lemma_first_match_prefix<A>(s: Seq<A>, k: int, pred: spec_fn(A) -> bool)
    requires
        0 <= k <= s.len(),
        first_match(s.take(k), pred) is Some,
    ensures
        first_match(s, pred) == first_match(s.take(k), pred),
{
    assert(s =~= s.take(k) + s.skip(k));
    Seq::filter_distributes_over_add(s.take(k), s.skip(k), pred);
}

/// The first match is the element at `i` exactly when that element passes
/// the test and none before it does.
pub proof fn lemma_first_match_at<A>(s: Seq<A>, i: int, pred: spec_fn(A) -> bool)
    requires
        0 <= i < s.len(),
        pred(s[i]),
        forall|j: int| 0 <= j < i ==> !pred(#[trigger] s[j]),
    ensures
        first_match(s, pred) == Some(s[i]),
{
    lemma_no_match(s.take(i), pred);
    lemma_take_push(s, i);
    lemma_first_match_push(s.take(i), s[i], pred);
    lemma_first_match_prefix(s, i + 1, pred);
}

/// The first match stands at some index, passes the test, and nothing
/// before it does. The index is handed back.
pub proof fn lemma_first_match_index<A>(s: Seq<A>, pred: spec_fn(A) -> bool) -> (i: int)
    requires
        first_match(s, pred) is Some,
    ensures
        0 <= i < s.len(),
        first_match(s, pred) == Some(s[i]),
        pred(s[i]),
        forall|j: int| 0 <= j < i ==> !pred(#[trigger] s[j]),
    decreases s.len(),
{
    reveal(Seq::filter);
    if s.len() == 0 {
        0
    } else {
        let front = s.drop_last();
        assert(front.push(s.last()) =~= s);
        lemma_first_match_push(front, s.last(), pred);
        if first_match(front, pred) is Some {
            lemma_first_match_index(front, pred)
        } else {
            assert forall|j: int| 0 <= j < front.len() implies !pred(#[trigger] s[j]) by {
                if pred(s[j]) {
                    assert(front[j] == s[j]);
                    front.lemma_filter_contains(pred, j);
                }
            }
            s.len() - 1
        }
    }
}

/// Where no element passes the test, the filter leaves nothing.
pub proof fn lemma_no_match<A>(s: Seq<A>, pred: spec_fn(A) -> bool)
    requires
        forall|j: int| 0 <= j < s.len() ==> !pred(#[trigger] s[j]),
    ensures
        s.filter(pred) == Seq::<A>::empty(),
        first_match(s, pred) == None::<A>,
    decreases s.len(),
{
    reveal(Seq::filter);
    if s.len() > 0 {
        lemma_no_match(s.drop_last(), pred);
    }
}

/// At most one index ends the name that starts at `start`.
pub proof fn lemma_name_end_unique(table: Seq<u8>, start: int, end: int)
    requires
        is_name_end(table, start, end),
    ensures
        name_end(table, start) == Some(end),
{
    let chosen = choose|e: int| is_name_end(table, start, e);
    assert(is_name_end(table, start, chosen));
    if chosen < end {
        assert(table[chosen] != 0);
    }
    if end < chosen {
        assert(table[end] != 0);
    }
}

/// Once a prefix of the needed entries fails, the whole sequence fails
/// with the same error.
pub proof fn lemma_collect_names_prefix_error(
    table: Seq<u8>,
    needed: Seq<DynSectionElement>,
    k: int,
)
    requires
        0 <= k <= needed.len(),
        collect_names(table, needed.take(k)) is Err,
    ensures
        collect_names(table, needed) == collect_names(table, needed.take(k)),
    decreases needed.len(),
{
    if k == needed.len() {
        assert(needed.take(k) =~= needed);
    } else {
        assert(needed.drop_last().take(k) =~= needed.take(k));
        lemma_collect_names_prefix_error(table, needed.drop_last(), k);
    }
}

} // verus!
