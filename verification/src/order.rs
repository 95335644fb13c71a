//! Ordering strings as `str`'s comparison does: character by character by
//! code point, a proper prefix first.

use vstd::prelude::*;
use crate::strings::chars_of;

verus! {

/// `a` sorts no later than `b`: strings compared character by character by
/// code point, a proper prefix first (the order of `str`'s comparison, as
/// UTF-8 preserves code point order).
pub open spec fn id_le(a: Seq<char>, b: Seq<char>) -> bool
    decreases a.len(),
{
    if a.len() == 0 {
        true
    } else if b.len() == 0 {
        false
    } else if a[0] != b[0] {
        (a[0] as int) < (b[0] as int)
    } else {
        id_le(a.drop_first(), b.drop_first())
    }
}

/// The order is total, and antisymmetric.
pub proof fn lemma_id_le_total(a: Seq<char>, b: Seq<char>)
    ensures
        id_le(a, b) || id_le(b, a),
        id_le(a, b) && id_le(b, a) ==> a == b,
    decreases a.len(),
{
    if a.len() > 0 && b.len() > 0 && a[0] == b[0] {
        lemma_id_le_total(a.drop_first(), b.drop_first());
        if id_le(a, b) && id_le(b, a) {
            assert(a =~= seq![a[0]] + a.drop_first());
            assert(b =~= seq![b[0]] + b.drop_first());
        }
    }
}

/// The order is transitive.
pub proof fn lemma_id_le_transitive(a: Seq<char>, b: Seq<char>, c: Seq<char>)
    requires
        id_le(a, b),
        id_le(b, c),
    ensures
        id_le(a, c),
    decreases a.len(),
{
    if a.len() > 0 && b.len() > 0 && c.len() > 0 && a[0] == b[0] && b[0] == c[0] {
        lemma_id_le_transitive(a.drop_first(), b.drop_first(), c.drop_first());
    }
}

/// Whether model id `a` sorts no later than `b`.
pub fn ids_in_order(a: &str, b: &str) -> (r: bool)
    ensures
        r == id_le(a@, b@),
{
    let x = chars_of(a);
    let y = chars_of(b);
    let mut i: usize = 0;
    assert(x@.skip(0) =~= x@ && y@.skip(0) =~= y@);
    while i < x.len() && i < y.len() && x[i] == y[i]
        invariant
            x@ == a@,
            y@ == b@,
            i <= x@.len(),
            i <= y@.len(),
            id_le(a@, b@) == id_le(x@.skip(i as int), y@.skip(i as int)),
        decreases x@.len() - i,
    {
        proof {
            assert(x@.skip(i as int).drop_first() =~= x@.skip(i as int + 1));
            assert(y@.skip(i as int).drop_first() =~= y@.skip(i as int + 1));
        }
        i = i + 1;
    }
    if i == x.len() {
        true
    } else if i == y.len() {
        false
    } else {
        x[i] < y[i]
    }
}

/// `order` lists positions of `ids` by ascending id, equal ids in their
/// original order.
pub open spec fn sorted_by_id(ids: Seq<Seq<char>>, order: Seq<usize>) -> bool {
    &&& forall|i: int, j: int| 0 <= i < j < order.len() ==> id_le(ids[order[i] as int], ids[order[j] as int])
    &&& forall|i: int, j: int| 0 <= i < j < order.len() && ids[order[i] as int] == ids[order[j] as int] ==> order[i] < order[j]
}

/// `order` holds each position below `n` exactly once.
pub open spec fn is_permutation(order: Seq<usize>, n: int) -> bool {
    &&& order.len() == n
    &&& forall|i: int| 0 <= i < order.len() ==> order[i] < n
    &&& forall|i: int, j: int| 0 <= i < j < order.len() ==> order[i] != order[j]
    &&& forall|i: usize| i < n ==> #[trigger] order.contains(i)
}

/// The characters of each id.
pub open spec fn id_views(ids: Seq<String>) -> Seq<Seq<char>> {
    ids.map_values(|s: String| s@)
}

/// The positions of `ids` by ascending id, equal ids in their original
/// order (a stable sort).
pub fn sorted_positions(ids: &Vec<String>) -> (r: Vec<usize>)
    ensures
        is_permutation(r@, ids@.len() as int),
        sorted_by_id(id_views(ids@), r@),
{
    let ghost views = id_views(ids@);
    let mut order: Vec<usize> = Vec::new();
    let mut j: usize = 0;
    while j < ids.len()
        invariant
            j <= ids@.len(),
            views == id_views(ids@),
            order@.len() == j,
            forall|i: int| 0 <= i < order@.len() ==> order@[i] < j,
            forall|a: int, b: int| 0 <= a < b < order@.len() ==> order@[a] != order@[b],
            forall|i: usize| i < j ==> #[trigger] order@.contains(i),
            sorted_by_id(views, order@),
        decreases ids@.len() - j,
    {
        let key = ids[j].as_str();
        let mut p: usize = 0;
        while p < order.len() && ids_in_order(ids[order[p]].as_str(), key)
            invariant
                p <= order@.len(),
                j < ids@.len(),
                views == id_views(ids@),
                key@ == views[j as int],
                forall|i: int| 0 <= i < order@.len() ==> order@[i] < j,
                forall|k: int| 0 <= k < p ==> id_le(views[order@[k] as int], views[j as int]),
            decreases order@.len() - p,
        {
            p = p + 1;
        }
        proof {
            if p < order@.len() {
                lemma_id_le_total(views[order@[p as int] as int], views[j as int]);
                assert forall|k: int| p < k < order@.len() implies id_le(views[j as int], views[order@[k] as int]) by {
                    lemma_id_le_transitive(views[j as int], views[order@[p as int] as int], views[order@[k] as int]);
                }
                assert forall|k: int| p <= k < order@.len() implies views[order@[k] as int] != views[j as int] by {
                    if views[order@[k] as int] == views[j as int] {
                        lemma_id_le_transitive(views[order@[p as int] as int], views[order@[k] as int], views[j as int]);
                    }
                }
            }
        }
        let ghost before = order@;
        order.insert(p, j);
        proof {
            assert(order@ == before.insert(p as int, j));
            assert forall|a: int, b: int| 0 <= a < b < order@.len() implies id_le(views[order@[a] as int], views[order@[b] as int]) by {
                if b < p {
                    assert(order@[a] == before[a] && order@[b] == before[b]);
                } else if a > p {
                    assert(order@[a] == before[a - 1] && order@[b] == before[b - 1]);
                } else if a == p {
                    assert(order@[b] == before[b - 1]);
                } else if b == p {
                    assert(order@[a] == before[a]);
                } else {
                    assert(order@[a] == before[a] && order@[b] == before[b - 1]);
                }
            }
            assert forall|a: int, b: int| 0 <= a < b < order@.len() && views[order@[a] as int] == views[order@[b] as int] implies order@[a] < order@[b] by {
                if b < p {
                    assert(order@[a] == before[a] && order@[b] == before[b]);
                } else if a > p {
                    assert(order@[a] == before[a - 1] && order@[b] == before[b - 1]);
                } else if a == p {
                    assert(order@[b] == before[b - 1]);
                } else if b == p {
                    assert(order@[a] == before[a]);
                } else {
                    assert(order@[a] == before[a] && order@[b] == before[b - 1]);
                }
            }
            assert forall|a: int, b: int| 0 <= a < b < order@.len() implies order@[a] != order@[b] by {
                if b < p {
                    assert(order@[a] == before[a] && order@[b] == before[b]);
                } else if a > p {
                    assert(order@[a] == before[a - 1] && order@[b] == before[b - 1]);
                } else if a == p {
                    assert(order@[b] == before[b - 1]);
                } else if b == p {
                    assert(order@[a] == before[a]);
                } else {
                    assert(order@[a] == before[a] && order@[b] == before[b - 1]);
                }
            }
            assert forall|i: usize| i < j + 1 implies #[trigger] order@.contains(i) by {
                if i == j {
                    assert(order@[p as int] == j);
                } else {
                    assert(before.contains(i));
                    let k = choose|k: int| 0 <= k < before.len() && before[k] == i;
                    if k < p {
                        assert(order@[k] == before[k]);
                    } else {
                        assert(order@[k + 1] == before[k]);
                    }
                }
            }
            assert forall|i: int| 0 <= i < order@.len() implies order@[i] < j + 1 by {
                if i < p {
                    assert(order@[i] == before[i]);
                } else if i > p {
                    assert(order@[i] == before[i - 1]);
                }
            }
        }
        j = j + 1;
    }
    order
}

} // verus!
