//! Byte-pattern search: the smallest index of the target at which the query
//! occurs, byte for byte, or none when the query occurs nowhere.

use vstd::prelude::*;

verus! {

/// A match of `q` begins at index `i` of `t`: the `q.len()` bytes of `t`
/// starting at `i` equal `q`, byte for byte.
pub open spec fn match_at(t: Seq<u8>, q: Seq<u8>, i: int) -> bool {
    &&& 0 <= i
    &&& i + q.len() <= t.len()
    &&& t.subrange(i, i + q.len()) == q
}

/// `i` is the leftmost index of `t` at which `q` matches.
pub open spec fn is_first_match(t: Seq<u8>, q: Seq<u8>, i: int) -> bool {
    &&& match_at(t, q, i)
    &&& forall|j: int| 0 <= j < i ==> !match_at(t, q, j)
}

/// What a correct search of `t` for `q` may return: the leftmost match
/// index when a match exists, and nothing otherwise.
pub open spec fn search_result_ok(t: Seq<u8>, q: Seq<u8>, r: Option<usize>) -> bool {
    match r {
        Some(i) => is_first_match(t, q, i as int),
        None => forall|i: int| !match_at(t, q, i),
    }
}

/// Relies on `twoway::find_bytes`: the index of the first occurrence of
/// `query` in `target`, or `None` when `query` occurs nowhere in `target`
/// (an empty `query` occurs at index `0`).
#[verifier::external_body]
fn two_way_find(target: &[u8], query: &[u8]) -> (r: Option<usize>)
    ensures
        search_result_ok(target@, query@, r),
{
    twoway::find_bytes(target, query)
}

/// The smallest index of `target` at which `query` begins a byte-for-byte
/// match, or `None` when there is no such index. An empty query matches at
/// index `0` of every target; a non-empty query never matches an empty target.
pub fn find_first(target: &[u8], query: &[u8]) -> (r: Option<usize>)
    ensures
        search_result_ok(target@, query@, r),
        query@.len() == 0 ==> r == Some(0usize),
        target@.len() == 0 && query@.len() > 0 ==> r is None,
{
    if query.len() == 0 {
        proof {
            assert(target@.subrange(0, 0) =~= query@);
        }
        Some(0)
    } else if target.len() == 0 {
        None
    } else {
        two_way_find(target, query)
    }
}

/// Whether the target's bytes are needed at all: an empty query matches at
/// offset `0` whatever the target holds, so only a non-empty query calls for
/// reading the target.
pub fn needs_target(query: &[u8]) -> (b: bool)
    ensures
        b <==> query@.len() > 0,
{
    query.len() > 0
}

/// The search contract pins a single answer: two correct results for the
/// same target and query are the same result.
pub proof fn lemma_search_result_unique(t: Seq<u8>, q: Seq<u8>, r1: Option<usize>, r2: Option<usize>)
    requires
        search_result_ok(t, q, r1),
        search_result_ok(t, q, r2),
    ensures
        r1 == r2,
{
    if r1 is Some && r2 is None {
        assert(!match_at(t, q, r1->0 as int));
    }
    if r1 is None && r2 is Some {
        assert(!match_at(t, q, r2->0 as int));
    }
    if r1 is Some && r2 is Some {
        let i1 = r1->0 as int;
        let i2 = r2->0 as int;
        if i1 < i2 {
            assert(!match_at(t, q, i1));
        }
        if i2 < i1 {
            assert(!match_at(t, q, i2));
        }
    }
}

/// A non-empty slice taken out of the target is always found: any correct
/// search result for it is a match beginning at an index no greater than the
/// index the slice was taken from.
pub proof fn lemma_search_finds_contained_slice(t: Seq<u8>, k: int, len: int, r: Option<usize>)
    requires
        0 < len,
        0 <= k,
        k + len <= t.len(),
        search_result_ok(t, t.subrange(k, k + len), r),
    ensures
        r is Some,
        r->0 <= k,
        match_at(t, t.subrange(k, k + len), r->0 as int),
{
    let q = t.subrange(k, k + len);
    assert(match_at(t, q, k));
    if r is None {
        assert(!match_at(t, q, k));
        assert(false);
    }
    if r->0 > k {
        assert(!match_at(t, q, k));
        assert(false);
    }
}

/// A query that holds a byte value occurring nowhere in the target matches
/// nowhere in the target.
pub proof fn lemma_absent_byte_no_match(t: Seq<u8>, q: Seq<u8>, b: u8)
    requires
        q.contains(b),
        !t.contains(b),
    ensures
        forall|i: int| !match_at(t, q, i),
{
    let k = choose|k: int| 0 <= k < q.len() && q[k] == b;
    assert forall|i: int| !match_at(t, q, i) by {
        if match_at(t, q, i) {
            assert(t.subrange(i, i + q.len())[k] == q[k]);
            assert(t[i + k] == b);
            assert(t.contains(b));
        }
    }
}

/// A correct search result for a query holding a byte value that occurs
/// nowhere in the target is "no match".
pub proof fn lemma_absent_byte_not_found(t: Seq<u8>, q: Seq<u8>, b: u8, r: Option<usize>)
    requires
        q.contains(b),
        !t.contains(b),
        search_result_ok(t, q, r),
    ensures
        r is None,
{
    lemma_absent_byte_no_match(t, q, b);
    if r is Some {
        assert(!match_at(t, q, r->0 as int));
    }
}

} // verus!
