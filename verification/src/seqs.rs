//! Facts about sequences that the loops of this crate rest on.

use vstd::prelude::*;

verus! {

/// Filtering one element more either appends that element or changes nothing.
pub proof fn lemma_filter_step<T>(s: Seq<T>, keep: spec_fn(T) -> bool, i: int)
    requires
        0 <= i < s.len(),
    ensures
        s.take(i + 1).filter(keep) == if keep(s[i]) {
            s.take(i).filter(keep).push(s[i])
        } else {
            s.take(i).filter(keep)
        },
{
    reveal(Seq::filter);
    assert(s.take(i + 1).drop_last() =~= s.take(i));
    assert(s.take(i + 1).last() == s[i]);
}

/// Filtering nothing gives nothing.
pub proof fn lemma_filter_none<T>(s: Seq<T>, keep: spec_fn(T) -> bool)
    ensures
        s.take(0).filter(keep) == Seq::<T>::empty(),
{
    reveal(Seq::filter);
    assert(s.take(0) =~= Seq::<T>::empty());
}

/// An element is in the filtered sequence exactly when it is in the
/// sequence and is kept.
pub proof fn lemma_filter_contains<T>(s: Seq<T>, keep: spec_fn(T) -> bool, x: T)
    ensures
        s.filter(keep).contains(x) <==> (s.contains(x) && keep(x)),
    decreases s.len(),
{
    reveal(Seq::filter);
    if s.len() == 0 {
    } else {
        let rest = s.drop_last();
        lemma_filter_contains(rest, keep, x);
        if s.contains(x) && keep(x) {
            let i = choose|i: int| 0 <= i < s.len() && s[i] == x;
            if i == s.len() - 1 {
                let f = rest.filter(keep).push(s.last());
                assert(f[f.len() - 1] == x);
            } else {
                assert(rest[i] == x);
                if keep(s.last()) {
                    let j = choose|j: int| 0 <= j < rest.filter(keep).len() && rest.filter(keep)[j] == x;
                    assert(rest.filter(keep).push(s.last())[j] == x);
                }
            }
        }
        if s.filter(keep).contains(x) {
            let f = s.filter(keep);
            let j = choose|j: int| 0 <= j < f.len() && f[j] == x;
            if keep(s.last()) && j == f.len() - 1 {
                assert(s[s.len() - 1] == x);
            } else {
                assert(rest.filter(keep)[j] == x);
                let i = choose|i: int| 0 <= i < rest.len() && rest[i] == x;
                assert(s[i] == x);
            }
        }
    }
}

/// The first fault that `fault` finds in `items`, going from the front.
pub open spec fn first_fault<T, E>(items: Seq<T>, fault: spec_fn(T) -> Option<E>) -> Option<E>
    decreases items.len(),
{
    if items.len() == 0 {
        None
    } else {
        match first_fault(items.drop_last(), fault) {
            Some(error) => Some(error),
            None => fault(items.last()),
        }
    }
}

/// While no fault was found in the first `i` items, the first fault of one
/// item more is that item's.
pub proof fn lemma_first_fault_step<T, E>(items: Seq<T>, fault: spec_fn(T) -> Option<E>, i: int)
    requires
        0 <= i < items.len(),
        first_fault(items.take(i), fault).is_none(),
    ensures
        first_fault(items.take(i + 1), fault) == fault(items[i]),
{
    assert(items.take(i + 1).drop_last() =~= items.take(i));
}

/// A fault found in a prefix is the first fault of the whole.
pub proof fn lemma_first_fault_prefix<T, E>(items: Seq<T>, fault: spec_fn(T) -> Option<E>, i: int)
    requires
        0 <= i <= items.len(),
        first_fault(items.take(i), fault).is_some(),
    ensures
        first_fault(items, fault) == first_fault(items.take(i), fault),
    decreases items.len() - i,
{
    if i < items.len() {
        assert(items.take(i + 1).drop_last() =~= items.take(i));
        lemma_first_fault_prefix(items, fault, i + 1);
    } else {
        assert(items.take(i) =~= items);
    }
}

/// What `label` makes of the items that `keep` keeps, in order.
pub open spec fn select<T, U>(items: Seq<T>, keep: spec_fn(T) -> bool, label: spec_fn(T) -> U) -> Seq<
    U,
> {
    items.filter(keep).map_values(label)
}

/// Selecting from one item more either appends that item's label or changes
/// nothing.
pub proof fn lemma_select_step<T, U>(
    items: Seq<T>,
    keep: spec_fn(T) -> bool,
    label: spec_fn(T) -> U,
    i: int,
)
    requires
        0 <= i < items.len(),
    ensures
        select(items.take(i + 1), keep, label) == if keep(items[i]) {
            select(items.take(i), keep, label).push(label(items[i]))
        } else {
            select(items.take(i), keep, label)
        },
{
    lemma_filter_step(items, keep, i);
    if keep(items[i]) {
        assert(items.take(i).filter(keep).push(items[i]).map_values(label) =~= items.take(
            i,
        ).filter(keep).map_values(label).push(label(items[i])));
    }
}

/// Selecting from nothing gives nothing.
pub proof fn lemma_select_none<T, U>(
    items: Seq<T>,
    keep: spec_fn(T) -> bool,
    label: spec_fn(T) -> U,
)
    ensures
        select(items.take(0), keep, label) == Seq::<U>::empty(),
{
    lemma_filter_none(items, keep);
    assert(Seq::<T>::empty().map_values(label) =~= Seq::<U>::empty());
}

/// A label is selected exactly when it is the label of an item that is
/// kept.
pub proof fn lemma_select_contains<T, U>(
    items: Seq<T>,
    keep: spec_fn(T) -> bool,
    label: spec_fn(T) -> U,
    wanted: U,
)
    ensures
        select(items, keep, label).contains(wanted) <==> (exists|i: int|
            0 <= i < items.len() && keep(#[trigger] items[i]) && label(items[i]) == wanted),
{
    let kept = items.filter(keep);
    if select(items, keep, label).contains(wanted) {
        let j = choose|j: int| 0 <= j < kept.len() && kept.map_values(label)[j] == wanted;
        assert(kept.contains(kept[j]));
        lemma_filter_contains(items, keep, kept[j]);
        let i = choose|i: int| 0 <= i < items.len() && items[i] == kept[j];
        assert(keep(items[i]) && label(items[i]) == wanted);
    }
    if (exists|i: int|
        0 <= i < items.len() && keep(#[trigger] items[i]) && label(items[i]) == wanted) {
        let i = choose|i: int|
            0 <= i < items.len() && keep(#[trigger] items[i]) && label(items[i]) == wanted;
        assert(items.contains(items[i]));
        lemma_filter_contains(items, keep, items[i]);
        let j = choose|j: int| 0 <= j < kept.len() && kept[j] == items[i];
        assert(kept.map_values(label)[j] == wanted);
    }
}

/// Two lists of the same length whose items are kept alike and labelled
/// alike, position by position, give the same selection.
pub proof fn lemma_select_pointwise<A, B, U>(
    left: Seq<A>,
    keep_left: spec_fn(A) -> bool,
    label_left: spec_fn(A) -> U,
    right: Seq<B>,
    keep_right: spec_fn(B) -> bool,
    label_right: spec_fn(B) -> U,
)
    requires
        left.len() == right.len(),
        forall|i: int|
            0 <= i < left.len() ==> keep_left(#[trigger] left[i]) == keep_right(right[i]),
        forall|i: int|
            0 <= i < left.len() && keep_left(#[trigger] left[i]) ==> label_left(left[i])
                == label_right(right[i]),
    ensures
        select(left, keep_left, label_left) == select(right, keep_right, label_right),
    decreases left.len(),
{
    if left.len() == 0 {
        lemma_select_none(left, keep_left, label_left);
        lemma_select_none(right, keep_right, label_right);
        assert(left.take(0) =~= left);
        assert(right.take(0) =~= right);
    } else {
        let n = left.len() - 1;
        let l = left.drop_last();
        let r = right.drop_last();
        assert forall|i: int| 0 <= i < l.len() implies keep_left(#[trigger] l[i]) == keep_right(
            r[i],
        ) by {
            assert(keep_left(left[i]) == keep_right(right[i]));
        }
        assert forall|i: int| 0 <= i < l.len() && keep_left(#[trigger] l[i]) implies label_left(
            l[i],
        ) == label_right(r[i]) by {
            assert(keep_left(left[i]));
        }
        lemma_select_pointwise(l, keep_left, label_left, r, keep_right, label_right);
        lemma_select_step(left, keep_left, label_left, n);
        lemma_select_step(right, keep_right, label_right, n);
        assert(left.take(n) =~= l);
        assert(right.take(n) =~= r);
        assert(left.take(n + 1) =~= left);
        assert(right.take(n + 1) =~= right);
        assert(keep_left(left[n]) == keep_right(right[n]));
    }
}

/// An item is in a list with one more item exactly when it was there or is
/// the new one.
pub proof fn lemma_push_contains<T>(items: Seq<T>, added: T, wanted: T)
    ensures
        items.push(added).contains(wanted) <==> (items.contains(wanted) || added == wanted),
{
    let pushed = items.push(added);
    if items.contains(wanted) {
        let i = choose|i: int| 0 <= i < items.len() && items[i] == wanted;
        assert(pushed[i] == wanted);
    }
    if added == wanted {
        assert(pushed[items.len() as int] == wanted);
    }
    if pushed.contains(wanted) {
        let i = choose|i: int| 0 <= i < pushed.len() && pushed[i] == wanted;
        if i < items.len() {
            assert(items[i] == wanted);
        }
    }
}

/// An item is in two lists put together exactly when it is in one of them.
pub proof fn lemma_add_contains<T>(first: Seq<T>, second: Seq<T>, wanted: T)
    ensures
        (first + second).contains(wanted) <==> (first.contains(wanted) || second.contains(wanted)),
{
    let both = first + second;
    if first.contains(wanted) {
        let i = choose|i: int| 0 <= i < first.len() && first[i] == wanted;
        assert(both[i] == wanted);
    }
    if second.contains(wanted) {
        let i = choose|i: int| 0 <= i < second.len() && second[i] == wanted;
        assert(both[first.len() + i] == wanted);
    }
    if both.contains(wanted) {
        let i = choose|i: int| 0 <= i < both.len() && both[i] == wanted;
        if i < first.len() {
            assert(first[i] == wanted);
        } else {
            assert(second[i - first.len()] == wanted);
        }
    }
}

} // verus!
