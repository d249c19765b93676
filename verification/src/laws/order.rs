//! Lists of actions: what is in them, and in which order.

use vstd::prelude::*;

verus! {

/// Whether the ranks of the items go up from one to the next: each comes once at most, and in
/// its order.
pub open spec fn in_order<A>(items: Seq<A>, rank: spec_fn(A) -> int) -> bool {
    forall|i: int, j: int|
        0 <= i < j < items.len() ==> rank(#[trigger] items[i]) < rank(#[trigger] items[j])
}

/// Whether the items are in order, with ranks from `low` to below `high`.
pub open spec fn in_order_within<A>(
    items: Seq<A>,
    rank: spec_fn(A) -> int,
    low: int,
    high: int,
) -> bool {
    &&& in_order(items, rank)
    &&& forall|i: int| 0 <= i < items.len() ==> low <= rank(#[trigger] items[i]) < high
}

pub(crate) proof fn lemma_order_of_parts<A>(
    a: Seq<A>,
    b: Seq<A>,
    rank: spec_fn(A) -> int,
    low: int,
    middle: int,
    high: int,
)
    requires
        in_order_within(a, rank, low, middle),
        in_order_within(b, rank, middle, high),
        low <= middle <= high,
    ensures
        in_order_within(a + b, rank, low, high),
{
    let c = a + b;
    assert forall|i: int| 0 <= i < c.len() implies low <= rank(#[trigger] c[i]) < high by {
        if i < a.len() {
            assert(c[i] == a[i]);
        } else {
            assert(c[i] == b[i - a.len()]);
        }
    }
    assert forall|i: int, j: int| 0 <= i < j < c.len() implies rank(#[trigger] c[i]) < rank(
        #[trigger] c[j],
    ) by {
        if j < a.len() {
            assert(c[i] == a[i] && c[j] == a[j]);
        } else if i < a.len() {
            assert(c[i] == a[i] && c[j] == b[j - a.len()]);
        } else {
            assert(c[i] == b[i - a.len()] && c[j] == b[j - a.len()]);
        }
    }
}

pub(crate) proof fn lemma_in_parts<A>(a: Seq<A>, b: Seq<A>, item: A)
    ensures
        (a + b).contains(item) <==> a.contains(item) || b.contains(item),
{
    let c = a + b;
    if a.contains(item) {
        assert(c[a.index_of(item)] == item);
    }
    if b.contains(item) {
        assert(c[a.len() + b.index_of(item)] == item);
    }
    if c.contains(item) {
        let i = c.index_of(item);
        if i < a.len() {
            assert(a[i] == item);
        } else {
            assert(b[i - a.len()] == item);
        }
    }
}

pub(crate) proof fn lemma_in_one<A>(a: A, item: A)
    ensures
        seq![a].contains(item) <==> item == a,
        !Seq::<A>::empty().contains(item),
{
    assert(seq![a][0] == a);
}

pub(crate) proof fn lemma_in_two<A>(a: A, b: A, item: A)
    ensures
        seq![a, b].contains(item) <==> item == a || item == b,
{
    let s = seq![a, b];
    assert(s[0] == a && s[1] == b);
}

pub(crate) proof fn lemma_in_three<A>(a: A, b: A, c: A, item: A)
    ensures
        seq![a, b, c].contains(item) <==> item == a || item == b || item == c,
{
    let s = seq![a, b, c];
    assert(s[0] == a && s[1] == b && s[2] == c);
}

} // verus!
