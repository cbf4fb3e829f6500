//! Sequences in which every item of another sequence is replaced by a run
//! of items.

use vstd::prelude::*;
use vstd::seq_lib::lemma_flatten_concat;

verus! {

/// The runs that `each` gives for the items of `items`, one after another.
pub open spec fn expand<A, B>(items: Seq<A>, each: spec_fn(A) -> Seq<B>) -> Seq<B> {
    items.map_values(each).flatten()
}

/// One item expands to its run.
pub proof fn lemma_expand_one<A, B>(each: spec_fn(A) -> Seq<B>, only: A)
    ensures
        expand(seq![only], each) == each(only),
{
    assert(seq![only].map_values(each) =~= seq![each(only)]);
    seq![each(only)].lemma_flatten_one_element();
}

/// One more item adds its run at the end.
pub proof fn lemma_expand_push<A, B>(items: Seq<A>, each: spec_fn(A) -> Seq<B>, last: A)
    ensures
        expand(items.push(last), each) == expand(items, each) + each(last),
{
    let runs = items.map_values(each);
    let one = seq![each(last)];
    assert(items.push(last).map_values(each) =~= runs + one);
    lemma_flatten_concat(runs, one);
    one.lemma_flatten_one_element();
}

/// What holds of every item of every run holds of every item of the
/// expansion.
pub proof fn lemma_expand_all<A, B>(
    items: Seq<A>,
    each: spec_fn(A) -> Seq<B>,
    holds: spec_fn(B) -> bool,
)
    requires
        forall|i: int, j: int|
            0 <= i < items.len() && 0 <= j < each(items[i]).len() ==> holds(
                #[trigger] each(items[i])[j],
            ),
    ensures
        forall|k: int| 0 <= k < expand(items, each).len() ==> holds(#[trigger] expand(items, each)[k]),
    decreases items.len(),
{
    if items.len() > 0 {
        let front = items.drop_last();
        assert(items =~= front.push(items.last()));
        lemma_expand_push(front, each, items.last());
        lemma_expand_all(front, each, holds);
    }
}

/// The expansion of two sequences, one after the other, is the expansion
/// of the first and then that of the second.
pub proof fn lemma_expand_concat<A, B>(front: Seq<A>, back: Seq<A>, each: spec_fn(A) -> Seq<B>)
    ensures
        expand(front + back, each) == expand(front, each) + expand(back, each),
{
    assert((front + back).map_values(each) =~= front.map_values(each) + back.map_values(each));
    lemma_flatten_concat(front.map_values(each), back.map_values(each));
}

/// The expansion of a sequence that is not empty is the run of its first
/// item and then the expansion of the rest.
pub proof fn lemma_expand_first<A, B>(items: Seq<A>, each: spec_fn(A) -> Seq<B>)
    requires
        items.len() >= 1,
    ensures
        expand(items, each) == each(items[0]) + expand(items.skip(1), each),
{
    assert(items =~= seq![items[0]] + items.skip(1));
    lemma_expand_concat(seq![items[0]], items.skip(1), each);
    lemma_expand_one(each, items[0]);
}

/// Every item of every run is an item of the expansion.
pub proof fn lemma_expand_contains<A, B>(
    items: Seq<A>,
    each: spec_fn(A) -> Seq<B>,
    i: int,
    j: int,
)
    requires
        0 <= i < items.len(),
        0 <= j < each(items[i]).len(),
    ensures
        expand(items, each).contains(each(items[i])[j]),
{
    let front = items.take(i);
    let back = items.skip(i + 1);
    assert(items =~= front.push(items[i]) + back);
    lemma_expand_concat(front.push(items[i]), back, each);
    lemma_expand_push(front, each, items[i]);
    let place = expand(front, each).len() + j;
    assert(expand(items, each)[place] == each(items[i])[j]);
}

/// Every item of the expansion is an item of one of the runs.
pub proof fn lemma_expand_origin<A, B>(items: Seq<A>, each: spec_fn(A) -> Seq<B>, k: int) -> (at: (
    int,
    int,
))
    requires
        0 <= k < expand(items, each).len(),
    ensures
        0 <= at.0 < items.len(),
        0 <= at.1 < each(items[at.0]).len(),
        expand(items, each)[k] == each(items[at.0])[at.1],
    decreases items.len(),
{
    if items.len() == 0 {
        (0, 0)
    } else {
        let front = items.drop_last();
        assert(items =~= front.push(items.last()));
        lemma_expand_push(front, each, items.last());
        if k < expand(front, each).len() {
            lemma_expand_origin(front, each, k)
        } else {
            (items.len() - 1, k - expand(front, each).len())
        }
    }
}

/// Whether `item` is one of `name(0)`, ..., `name(count - 1)`.
pub open spec fn is_among<A>(item: A, name: spec_fn(nat) -> A, count: nat) -> bool {
    exists|k: nat| k < count && item == #[trigger] name(k)
}

/// Distinct items that are all among `name(0)`, ..., `name(count - 1)` are
/// at most `count`.
pub proof fn lemma_distinct_items_are_few<A>(items: Seq<A>, name: spec_fn(nat) -> A, count: nat)
    requires
        items.no_duplicates(),
        forall|i: int| 0 <= i < items.len() ==> is_among(#[trigger] items[i], name, count),
    ensures
        items.len() <= count,
    decreases count,
{
    if count == 0 {
        if items.len() > 0 {
            assert(is_among(items[0], name, count));
        }
    } else {
        let last = name((count - 1) as nat);
        if items.contains(last) {
            let at = items.index_of(last);
            let rest = items.remove(at);
            lemma_distinct_items_are_few(rest, name, (count - 1) as nat);
        } else {
            lemma_distinct_items_are_few(items, name, (count - 1) as nat);
        }
    }
}

} // verus!
