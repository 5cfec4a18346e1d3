//! The order of results in the summary: by side (left, right, then the
//! rest), then by label, keeping the given order among equals.
use vstd::prelude::*;
use vstd::string::StrSliceExecFns;

use crate::bench::labels::{compare_side_rank, side_rank};
use crate::bench::schema::CompareSide;
use crate::text::chars_of;

verus! {

/// Labels in lexicographic order of their characters (for UTF-8 text this is
/// the byte order that `str`'s `Ord` uses).
pub open spec fn label_lt(a: Seq<char>, b: Seq<char>) -> bool
    decreases a.len(),
{
    if a.len() == 0 {
        b.len() > 0
    } else if b.len() == 0 {
        false
    } else if a[0] != b[0] {
        a[0] < b[0]
    } else {
        label_lt(a.drop_first(), b.drop_first())
    }
}

/// Two different labels are ordered one way, never both.
pub proof fn lemma_label_order(a: Seq<char>, b: Seq<char>)
    ensures
        a != b ==> label_lt(a, b) || label_lt(b, a),
        !(label_lt(a, b) && label_lt(b, a)),
        !label_lt(a, a),
    decreases a.len(),
{
    if a.len() > 0 && b.len() > 0 {
        if a[0] == b[0] {
            lemma_label_order(a.drop_first(), b.drop_first());
            if a != b {
                assert(a.drop_first() != b.drop_first()) by {
                    if a.drop_first() == b.drop_first() {
                        assert forall|k: int| 0 <= k < a.len() implies a[k] == b[k] by {
                            if k > 0 {
                                assert(a[k] == a.drop_first()[k - 1]);
                                assert(b[k] == b.drop_first()[k - 1]);
                            }
                        }
                        assert(a =~= b);
                    }
                }
            }
        }
        lemma_label_order(a.drop_first(), a.drop_first());
    } else if a.len() == 0 && b.len() == 0 {
        assert(a =~= b);
    } else if a.len() > 0 {
        lemma_label_order(a.drop_first(), a.drop_first());
    }
}

/// Whether `a` orders before `b`.
fn label_less(a: &str, b: &str) -> (r: bool)
    ensures
        r == label_lt(a@, b@),
{
    let ca = chars_of(a);
    let cb = chars_of(b);
    let mut i: usize = 0;
    assert(a@.skip(0) =~= a@);
    assert(b@.skip(0) =~= b@);
    while i < ca.len() && i < cb.len()
        invariant
            ca@ == a@,
            cb@ == b@,
            i <= ca.len(),
            i <= cb.len(),
            label_lt(a@, b@) == label_lt(a@.skip(i as int), b@.skip(i as int)),
        decreases ca.len() - i,
    {
        if ca[i] != cb[i] {
            return ca[i] < cb[i];
        }
        proof {
            assert(a@.skip(i as int).drop_first() =~= a@.skip(i + 1));
            assert(b@.skip(i as int).drop_first() =~= b@.skip(i + 1));
        }
        i = i + 1;
    }
    i == ca.len() && i < cb.len()
}

/// The key a result is ordered by: its side's rank and its label.
pub open spec fn result_key(keys: Seq<(Option<CompareSide>, String)>, i: int) -> (u8, Seq<char>) {
    (side_rank(keys[i].0), keys[i].1@)
}

/// A key orders before another: a smaller rank, or the same rank and an
/// earlier label.
pub open spec fn key_lt(a: (u8, Seq<char>), b: (u8, Seq<char>)) -> bool {
    a.0 < b.0 || (a.0 == b.0 && label_lt(a.1, b.1))
}

/// Result `i` goes before result `j`: a smaller key, or the same key and an
/// earlier position (the sort is stable).
pub open spec fn goes_before(keys: Seq<(Option<CompareSide>, String)>, i: int, j: int) -> bool {
    key_lt(result_key(keys, i), result_key(keys, j)) || (result_key(keys, i) == result_key(keys, j)
        && i < j)
}

/// `order` lists the positions `0..n` once each, in sorted order.
pub open spec fn sorted_permutation(keys: Seq<(Option<CompareSide>, String)>, order: Seq<usize>, n: int) -> bool {
    &&& order.len() == n
    &&& forall|p: int| 0 <= p < order.len() ==> #[trigger] order[p] < n
    &&& forall|p: int, q: int| 0 <= p < q < order.len() ==> #[trigger] order[p] != #[trigger] order[q]
    &&& forall|p: int|
        0 <= p < order.len() - 1 ==> #[trigger] goes_before(keys, order[p] as int, order[p + 1] as int)
}

/// The first position of `order`, from `p` on, whose result has a larger key
/// than result `i` (the length of `order` when there is none).
pub open spec fn first_larger(keys: Seq<(Option<CompareSide>, String)>, order: Seq<usize>, i: int, p: int) -> int
    decreases order.len() - p,
{
    if p < 0 || p >= order.len() {
        order.len() as int
    } else if key_lt(result_key(keys, i), result_key(keys, order[p] as int)) {
        p
    } else {
        first_larger(keys, order, i, p + 1)
    }
}

/// The summary order of the first `n` results: each result in turn goes just
/// before the first one already placed that has a larger key.
pub open spec fn summary_order(keys: Seq<(Option<CompareSide>, String)>, n: nat) -> Seq<usize>
    decreases n,
{
    if n == 0 {
        Seq::empty()
    } else {
        let placed = summary_order(keys, (n - 1) as nat);
        placed.insert(first_larger(keys, placed, n - 1, 0), (n - 1) as usize)
    }
}

proof fn lemma_first_larger_is(keys: Seq<(Option<CompareSide>, String)>, order: Seq<usize>, i: int, q: int, pos: int)
    requires
        0 <= q <= pos <= order.len(),
        forall|p: int| 0 <= p < pos ==> !key_lt(result_key(keys, i), #[trigger] result_key(keys, order[p] as int)),
        pos < order.len() ==> key_lt(result_key(keys, i), result_key(keys, order[pos] as int)),
    ensures
        first_larger(keys, order, i, q) == pos,
    decreases pos - q,
{
    if q < pos {
        assert(!key_lt(result_key(keys, i), result_key(keys, order[q] as int)));
        lemma_first_larger_is(keys, order, i, q + 1, pos);
    }
}

/// The positions of the results in summary order: by side rank, then label,
/// and in the given order where both are equal.
pub fn sorted_result_order(keys: &Vec<(Option<CompareSide>, String)>) -> (order: Vec<usize>)
    ensures
        sorted_permutation(keys@, order@, keys@.len() as int),
        order@ == summary_order(keys@, keys@.len()),
{
    let mut order: Vec<usize> = Vec::new();
    let mut i: usize = 0;
    while i < keys.len()
        invariant
            i <= keys.len(),
            sorted_permutation(keys@, order@, i as int),
            order@ == summary_order(keys@, i as nat),
        decreases keys.len() - i,
    {
        let rank_i = compare_side_rank(keys[i].0);
        let mut pos: usize = 0;
        while pos < order.len()
            invariant
                i < keys.len(),
                rank_i == side_rank(keys@[i as int].0),
                sorted_permutation(keys@, order@, i as int),
                pos <= order.len(),
                forall|p: int|
                    0 <= p < pos ==> !key_lt(result_key(keys@, i as int), #[trigger] result_key(keys@, order@[p] as int)),
            ensures
                pos <= order.len(),
                forall|p: int|
                    0 <= p < pos ==> !key_lt(result_key(keys@, i as int), #[trigger] result_key(keys@, order@[p] as int)),
                pos < order.len() ==> key_lt(result_key(keys@, i as int), result_key(keys@, order@[pos as int] as int)),
            decreases order.len() - pos,
        {
            let j = order[pos];
            let rank_j = compare_side_rank(keys[j].0);
            let before = rank_i < rank_j || (rank_i == rank_j && label_less(keys[i].1.as_str(), keys[j].1.as_str()));
            if before {
                break;
            }
            pos = pos + 1;
        }
        let ghost old_order = order@;
        order.insert(pos, i);
        proof {
            lemma_insert_keeps_order(keys@, old_order, i as int, pos as int);
            lemma_first_larger_is(keys@, old_order, i as int, 0, pos as int);
            assert(summary_order(keys@, (i + 1) as nat) == old_order.insert(pos as int, i));
        }
        i = i + 1;
    }
    order
}

proof fn lemma_insert_keeps_order(keys: Seq<(Option<CompareSide>, String)>, order: Seq<usize>, i: int, pos: int)
    requires
        0 <= i < keys.len(),
        i < usize::MAX,
        sorted_permutation(keys, order, i),
        0 <= pos <= order.len(),
        forall|p: int| 0 <= p < pos ==> !key_lt(result_key(keys, i), #[trigger] result_key(keys, order[p] as int)),
        pos < order.len() ==> key_lt(result_key(keys, i), result_key(keys, order[pos] as int)),
    ensures
        sorted_permutation(keys, order.insert(pos, i as usize), i + 1),
{
    let o2 = order.insert(pos, i as usize);
    assert forall|p: int| 0 <= p < o2.len() implies #[trigger] o2[p] < i + 1 by {
        if p < pos {
            assert(o2[p] == order[p]);
        } else if p > pos {
            assert(o2[p] == order[p - 1]);
        }
    }
    assert forall|p: int, q: int| 0 <= p < q < o2.len() implies #[trigger] o2[p] != #[trigger] o2[q] by {
        if p < pos && q < pos {
            assert(order[p] != order[q]);
        } else if p < pos && q == pos {
            assert(order[p] < i);
        } else if p < pos && q > pos {
            assert(o2[q] == order[q - 1]);
            assert(order[p] != order[q - 1]);
        } else if p == pos {
            assert(o2[q] == order[q - 1]);
            assert(order[q - 1] < i);
        } else {
            assert(o2[p] == order[p - 1]);
            assert(o2[q] == order[q - 1]);
            assert(order[p - 1] != order[q - 1]);
        }
    }
    assert forall|p: int| 0 <= p < o2.len() - 1 implies #[trigger] goes_before(keys, o2[p] as int, o2[p + 1] as int) by {
        if p + 1 < pos {
            assert(o2[p] == order[p] && o2[p + 1] == order[p + 1]);
            assert(goes_before(keys, order[p] as int, order[p + 1] as int));
        } else if p + 1 == pos {
            let e = order[p] as int;
            assert(o2[p] == order[p]);
            assert(!key_lt(result_key(keys, i), result_key(keys, e)));
            assert(e < i);
            lemma_label_order(keys[i].1@, keys[e].1@);
            assert(goes_before(keys, e, i));
        } else if p == pos {
            assert(o2[p + 1] == order[p]);
        } else {
            let k = p - 1;
            assert(o2[p] == order[k] && o2[p + 1] == order[k + 1]);
            assert(goes_before(keys, order[k] as int, order[k + 1] as int));
        }
    }
}

/// Label order is transitive.
pub proof fn lemma_label_lt_transitive(a: Seq<char>, b: Seq<char>, c: Seq<char>)
    requires
        label_lt(a, b),
        label_lt(b, c),
    ensures
        label_lt(a, c),
    decreases a.len(),
{
    if a.len() > 0 && a[0] == b[0] && b[0] == c[0] {
        lemma_label_lt_transitive(a.drop_first(), b.drop_first(), c.drop_first());
    }
}

/// `goes_before` is transitive.
pub proof fn lemma_goes_before_transitive(keys: Seq<(Option<CompareSide>, String)>, i: int, j: int, k: int)
    requires
        goes_before(keys, i, j),
        goes_before(keys, j, k),
    ensures
        goes_before(keys, i, k),
{
    let (a, b, c) = (result_key(keys, i), result_key(keys, j), result_key(keys, k));
    if a.0 == b.0 && b.0 == c.0 && label_lt(a.1, b.1) && label_lt(b.1, c.1) {
        lemma_label_lt_transitive(a.1, b.1, c.1);
    }
}

/// In the summary order, every result goes before every later one.
pub proof fn lemma_sorted_order_is_total(keys: Seq<(Option<CompareSide>, String)>, order: Seq<usize>, n: int)
    requires
        sorted_permutation(keys, order, n),
    ensures
        forall|p: int, q: int|
            0 <= p < q < order.len() ==> goes_before(keys, #[trigger] order[p] as int, #[trigger] order[q] as int),
{
    assert forall|p: int, q: int| 0 <= p < q < order.len() implies goes_before(
        keys,
        #[trigger] order[p] as int,
        #[trigger] order[q] as int,
    ) by {
        lemma_sorted_prefix(keys, order, n, p, q);
    }
}

proof fn lemma_sorted_prefix(keys: Seq<(Option<CompareSide>, String)>, order: Seq<usize>, n: int, p: int, q: int)
    requires
        sorted_permutation(keys, order, n),
        0 <= p < q < order.len(),
    ensures
        goes_before(keys, order[p] as int, order[q] as int),
    decreases q - p,
{
    let k = q - 1;
    assert(goes_before(keys, order[k] as int, order[k + 1] as int));
    if p < k {
        lemma_sorted_prefix(keys, order, n, p, k);
        lemma_goes_before_transitive(keys, order[p] as int, order[k] as int, order[q] as int);
    }
}

} // verus!
