//! Stable sorting.
use vstd::prelude::*;

verus! {

/// A value that has its place among others of its type.
pub trait Ranked: Sized {
    /// Whether the value comes strictly before another.
    spec fn precedes(self, other: Self) -> bool;

    /// Of two values no more than one comes before the other.
    proof fn precedence_is_asymmetric(a: Self, b: Self)
        requires
            a.precedes(b),
        ensures
            !b.precedes(a),
    ;

    /// What comes at or before a value comes at or before all that the value comes at or before.
    proof fn precedence_is_transitive(a: Self, b: Self, c: Self)
        requires
            !b.precedes(a),
            !c.precedes(b),
        ensures
            !c.precedes(a),
    ;

    /// Whether the value comes strictly before another.
    fn comes_first(&self, other: &Self) -> (before: bool)
        ensures
            before == self.precedes(*other),
    ;
}

/// Every value comes at or before those behind it.
pub open spec fn is_sorted<T: Ranked>(items: Seq<T>) -> bool {
    forall|i: int, j: int|
        0 <= i < j < items.len() ==> !(#[trigger] items[j]).precedes(#[trigger] items[i])
}

/// The position of a new value in a sorted sequence: behind every value that it does not come
/// strictly before.
pub open spec fn place<T: Ranked>(items: Seq<T>, item: T) -> int
    decreases items.len(),
{
    if items.len() == 0 {
        0
    } else if item.precedes(items.last()) {
        place(items.drop_last(), item)
    } else {
        items.len() as int
    }
}

/// The values in their order; values of which none comes before the other stay as they were.
pub open spec fn stable_sorted<T: Ranked>(items: Seq<T>) -> Seq<T>
    decreases items.len(),
{
    if items.len() == 0 {
        items
    } else {
        let before = stable_sorted(items.drop_last());
        before.insert(place(before, items.last()), items.last())
    }
}

proof fn place_divides<T: Ranked>(items: Seq<T>, item: T)
    requires
        is_sorted(items),
    ensures
        0 <= place(items, item) <= items.len(),
        forall|i: int| 0 <= i < place(items, item) ==> !item.precedes(#[trigger] items[i]),
        forall|i: int|
            place(items, item) <= i < items.len() ==> item.precedes(#[trigger] items[i]),
    decreases items.len(),
{
    if items.len() > 0 {
        let shorter = items.drop_last();
        if item.precedes(items.last()) {
            place_divides(shorter, item);
            assert forall|i: int| place(items, item) <= i < items.len() implies item.precedes(
                #[trigger] items[i],
            ) by {
                if i < shorter.len() {
                    assert(shorter[i] == items[i]);
                }
            }
            assert forall|i: int| 0 <= i < place(items, item) implies !item.precedes(
                #[trigger] items[i],
            ) by {
                assert(shorter[i] == items[i]);
            }
        } else {
            assert forall|i: int| 0 <= i < items.len() implies !item.precedes(
                #[trigger] items[i],
            ) by {
                if i < items.len() - 1 {
                    assert(!items[items.len() - 1].precedes(items[i]));
                    T::precedence_is_transitive(items[i], items.last(), item);
                }
            }
        }
    }
}

/// A position that divides the sequence in this way is the place.
proof fn place_is_unique<T: Ranked>(items: Seq<T>, item: T, at: int)
    requires
        is_sorted(items),
        0 <= at <= items.len(),
        at > 0 ==> !item.precedes(items[at - 1]),
        at < items.len() ==> item.precedes(items[at]),
    ensures
        place(items, item) == at,
{
    place_divides(items, item);
    let found = place(items, item);
    if found < at {
        assert(item.precedes(items[at - 1]));
    } else if at < found {
        assert(!item.precedes(items[at]));
    }
}

proof fn insertion_keeps_order<T: Ranked>(items: Seq<T>, item: T)
    requires
        is_sorted(items),
    ensures
        is_sorted(items.insert(place(items, item), item)),
{
    let at = place(items, item);
    let grown = items.insert(at, item);
    place_divides(items, item);
    assert forall|i: int, j: int| 0 <= i < j < grown.len() implies !(
    #[trigger] grown[j]).precedes(#[trigger] grown[i]) by {
        let x = if i < at { i } else { i - 1 };
        let y = if j < at { j } else { j - 1 };
        if i == at {
            assert(grown[j] == items[y]);
            T::precedence_is_asymmetric(item, items[y]);
        } else if j == at {
            assert(grown[i] == items[x]);
        } else {
            assert(grown[i] == items[x] && grown[j] == items[y]);
        }
    }
}

/// The values come out in their order.
pub proof fn sorting_orders<T: Ranked>(items: Seq<T>)
    ensures
        is_sorted(stable_sorted(items)),
    decreases items.len(),
{
    if items.len() > 0 {
        sorting_orders(items.drop_last());
        insertion_keeps_order(stable_sorted(items.drop_last()), items.last());
    }
}

/// Sorting neither loses nor adds a value.
pub proof fn sorting_keeps_values<T: Ranked>(items: Seq<T>)
    ensures
        stable_sorted(items).to_multiset() == items.to_multiset(),
        stable_sorted(items).len() == items.len(),
    decreases items.len(),
{
    broadcast use vstd::seq_lib::group_to_multiset_ensures;

    if items.len() > 0 {
        let before = stable_sorted(items.drop_last());
        sorting_keeps_values(items.drop_last());
        sorting_orders(items.drop_last());
        place_divides(before, items.last());
        assert(items == items.drop_last().push(items.last()));
        assert(before.insert(place(before, items.last()), items.last()).to_multiset()
            == before.to_multiset().insert(items.last()));
    }
}

/// Sorts values; values of which none comes before the other stay as they were.
pub fn sort<T: Ranked>(items: Vec<T>) -> (sorted: Vec<T>)
    ensures
        sorted@ == stable_sorted(items@),
{
    let ghost all = items@;
    let mut items: Vec<T> = items;
    let mut waiting: Vec<T> = Vec::new();
    while items.len() > 0
        invariant
            items@ + waiting@.reverse() == all,
        decreases items.len(),
    {
        let ghost left = items@;
        let ghost turned = waiting@;
        match items.pop() {
            Some(item) => {
                waiting.push(item);
                proof {
                    assert(waiting@.reverse() == seq![item] + turned.reverse());
                    assert(left == items@.push(item));
                    assert(items@ + waiting@.reverse() == left + turned.reverse());
                }
            },
            None => {},
        }
    }
    proof {
        assert(waiting@.reverse() == all);
    }
    let mut sorted: Vec<T> = Vec::new();
    let ghost mut taken: int = 0;
    proof {
        assert(all.take(0) == Seq::<T>::empty());
    }
    while waiting.len() > 0
        invariant
            0 <= taken <= all.len(),
            waiting@.reverse() == all.skip(taken),
            waiting@.len() == all.len() - taken,
            sorted@ == stable_sorted(all.take(taken)),
        decreases waiting.len(),
    {
        let ghost left = waiting@;
        match waiting.pop() {
            Some(item) => {
                let ghost done = all.take(taken);
                let ghost more = all.take(taken + 1);
                proof {
                    assert(left.reverse()[0] == item);
                    assert(all.skip(taken)[0] == all[taken]);
                    assert(more.drop_last() == done);
                    assert(more.last() == item);
                    sorting_orders(done);
                }
                let mut low: usize = 0;
                let mut high: usize = sorted.len();
                while low < high
                    invariant
                        low <= high <= sorted.len(),
                        is_sorted(sorted@),
                        low > 0 ==> !item.precedes(sorted@[low - 1]),
                        high < sorted.len() ==> item.precedes(sorted@[high as int]),
                    decreases high - low,
                {
                    let middle: usize = low + (high - low) / 2;
                    if item.comes_first(&sorted[middle]) {
                        high = middle;
                    } else {
                        low = middle + 1;
                    }
                }
                proof {
                    place_is_unique(sorted@, item, low as int);
                }
                sorted.insert(low, item);
                proof {
                    assert(waiting@.reverse() == all.skip(taken + 1)) by {
                        assert forall|k: int| 0 <= k < waiting@.len() implies waiting@.reverse()[k]
                            == all.skip(taken + 1)[k] by {
                            assert(left.reverse()[k + 1] == all.skip(taken)[k + 1]);
                        }
                        assert(waiting@.reverse() =~= all.skip(taken + 1));
                    }
                    taken = taken + 1;
                }
            },
            None => {},
        }
    }
    proof {
        assert(all.take(taken) == all);
    }
    sorted
}

/// Neither of two values comes before the other.
pub open spec fn same_place<T: Ranked>(a: T, b: T) -> bool {
    !a.precedes(b) && !b.precedes(a)
}

proof fn lemma_filter_parts<T>(a: Seq<T>, b: Seq<T>, keep: spec_fn(T) -> bool)
    ensures
        (a + b).filter(keep) == a.filter(keep) + b.filter(keep),
    decreases b.len(),
{
    reveal(Seq::filter);
    if b.len() == 0 {
        assert(a + b =~= a);
        assert(a.filter(keep) + b.filter(keep) =~= a.filter(keep));
    } else {
        lemma_filter_parts(a, b.drop_last(), keep);
        assert((a + b).drop_last() =~= a + b.drop_last());
        assert((a + b).last() == b.last());
        assert((a + b).filter(keep) =~= a.filter(keep) + b.filter(keep));
    }
}

proof fn lemma_filters_nothing<T>(a: Seq<T>, keep: spec_fn(T) -> bool)
    requires
        forall|i: int| 0 <= i < a.len() ==> !keep(#[trigger] a[i]),
    ensures
        a.filter(keep) == Seq::<T>::empty(),
    decreases a.len(),
{
    reveal(Seq::filter);
    if a.len() > 0 {
        assert(!keep(a[a.len() - 1]));
        assert forall|i: int| 0 <= i < a.drop_last().len() implies !keep(
            #[trigger] a.drop_last()[i],
        ) by {
            assert(a.drop_last()[i] == a[i]);
        }
        lemma_filters_nothing(a.drop_last(), keep);
    }
}

/// Values of which none comes before the other stay in the order in which they came.
pub proof fn sorting_is_stable<T: Ranked>(items: Seq<T>, like: T)
    ensures
        stable_sorted(items).filter(|item: T| same_place(item, like)) == items.filter(
            |item: T| same_place(item, like),
        ),
    decreases items.len(),
{
    let keep = |item: T| same_place(item, like);
    if items.len() > 0 {
        let before = stable_sorted(items.drop_last());
        let last = items.last();
        let at = place(before, last);
        sorting_is_stable(items.drop_last(), like);
        sorting_orders(items.drop_last());
        place_divides(before, last);
        let front = before.take(at);
        let back = before.skip(at);
        assert(before =~= front + back);
        lemma_filter_parts(front, back, keep);
        assert(before.insert(at, last) =~= front.push(last) + back);
        lemma_filter_parts(front.push(last), back, keep);
        assert(front.push(last).drop_last() =~= front);
        assert(front.push(last).filter(keep) == if keep(last) {
            front.filter(keep).push(last)
        } else {
            front.filter(keep)
        }) by {
            reveal(Seq::filter);
        }
        assert(items.filter(keep) == if keep(last) {
            items.drop_last().filter(keep).push(last)
        } else {
            items.drop_last().filter(keep)
        }) by {
            reveal(Seq::filter);
        }
        if keep(last) {
            assert forall|i: int| 0 <= i < back.len() implies !keep(#[trigger] back[i]) by {
                assert(back[i] == before[at + i]);
                if keep(back[i]) {
                    T::precedence_is_transitive(back[i], like, last);
                }
            }
            lemma_filters_nothing(back, keep);
            assert(stable_sorted(items).filter(keep) =~= items.filter(keep));
        }
    }
}

} // verus!
