//! Facts about rows that were chosen, changed, deleted, added and joined.

use vstd::prelude::*;

use crate::error::DbError;
use crate::relation::{changed, each, join, lemma_each_ok, without};

verus! {

/// A chosen row is one of the rows, and the predicate holds of it.
pub proof fn lemma_chosen<T>(rows: Seq<T>, pred: spec_fn(T) -> bool, i: int)
    requires
        0 <= i < rows.filter(pred).len(),
    ensures
        pred(rows.filter(pred)[i]),
        exists|k: int| 0 <= k < rows.len() && rows[k] == rows.filter(pred)[i],
{
    let row = rows.filter(pred)[i];
    rows.lemma_filter_pred(pred, i);
    assert(rows.filter(pred).contains(row));
    rows.lemma_filter_contains_rev(pred, row);
}

/// No row is chosen where the predicate holds of none.
pub proof fn lemma_none_chosen<T>(rows: Seq<T>, pred: spec_fn(T) -> bool)
    ensures
        rows.filter(pred).len() == 0 <==> !rows.any(pred),
{
    if rows.any(pred) {
        let k = choose|k: int| 0 <= k < rows.len() && #[trigger] pred(rows[k]);
        rows.lemma_filter_contains(pred, k);
    } else if rows.filter(pred).len() > 0 {
        lemma_chosen(rows, pred, 0);
        let k = choose|k: int| 0 <= k < rows.len() && rows[k] == rows.filter(pred)[0];
        assert(pred(rows[k]));
    }
}

/// The rows chosen after a row was added.
pub proof fn lemma_chosen_after_push<T>(rows: Seq<T>, row: T, pred: spec_fn(T) -> bool)
    ensures
        rows.push(row).filter(pred) == if pred(row) {
            rows.filter(pred).push(row)
        } else {
            rows.filter(pred)
        },
{
    reveal(Seq::filter);
    assert(rows.push(row).drop_last() =~= rows);
}

/// A change that keeps a row chosen, or not chosen, can be made after choosing.
pub proof fn lemma_chosen_after_change<T>(
    rows: Seq<T>,
    pred: spec_fn(T) -> bool,
    change: spec_fn(T) -> T,
    chosen: spec_fn(T) -> bool,
)
    requires
        forall|row: T| pred(row) ==> #[trigger] chosen(change(row)) == chosen(row),
    ensures
        changed(rows, pred, change).filter(chosen) == changed(rows.filter(chosen), pred, change),
    decreases rows.len(),
{
    reveal(Seq::filter);
    if rows.len() > 0 {
        let front = rows.drop_last();
        let last = rows.last();
        lemma_chosen_after_change(front, pred, change, chosen);
        assert(changed(rows, pred, change).drop_last() =~= changed(front, pred, change));
        let new_last = if pred(last) {
            change(last)
        } else {
            last
        };
        assert(changed(rows, pred, change).last() == new_last);
        assert(chosen(new_last) == chosen(last));
        if chosen(last) {
            assert(changed(front.filter(chosen).push(last), pred, change) =~= changed(
                front.filter(chosen),
                pred,
                change,
            ).push(new_last));
        }
    } else {
        assert(changed(rows, pred, change) =~= rows);
        assert(changed(rows.filter(chosen), pred, change) =~= rows.filter(chosen));
    }
}

/// Nothing changes where the predicate holds of no row.
pub proof fn lemma_nothing_changed<T>(
    rows: Seq<T>,
    pred: spec_fn(T) -> bool,
    change: spec_fn(T) -> T,
)
    requires
        !rows.any(pred),
    ensures
        changed(rows, pred, change) == rows,
{
    assert forall|k: int| 0 <= k < rows.len() implies !pred(rows[k]) by {}
    assert(changed(rows, pred, change) =~= rows);
}

/// What is chosen beside the changed rows stays.
pub proof fn lemma_others_unchanged<T>(
    rows: Seq<T>,
    pred: spec_fn(T) -> bool,
    change: spec_fn(T) -> T,
    other: spec_fn(T) -> bool,
)
    requires
        forall|row: T| pred(row) ==> !other(row) && !#[trigger] other(change(row)),
    ensures
        changed(rows, pred, change).filter(other) == rows.filter(other),
{
    lemma_chosen_after_change(rows, pred, change, other);
    let kept = rows.filter(other);
    assert(!kept.any(pred)) by {
        if kept.any(pred) {
            let k = choose|k: int| 0 <= k < kept.len() && #[trigger] pred(kept[k]);
            lemma_chosen(rows, other, k);
            assert(!other(change(kept[k])));
        }
    }
    lemma_nothing_changed(kept, pred, change);
}

/// What is chosen beside the deleted rows stays.
pub proof fn lemma_others_kept<T>(
    rows: Seq<T>,
    pred: spec_fn(T) -> bool,
    other: spec_fn(T) -> bool,
)
    requires
        forall|row: T| #[trigger] other(row) ==> !pred(row),
    ensures
        without(rows, pred).filter(other) == rows.filter(other),
    decreases rows.len(),
{
    reveal(Seq::filter);
    if rows.len() > 0 {
        let front = rows.drop_last();
        lemma_others_kept(front, pred, other);
        if !pred(rows.last()) {
            lemma_chosen_after_push(without(front, pred), rows.last(), other);
        }
    }
}

/// Deleted rows are gone.
pub proof fn lemma_gone<T>(rows: Seq<T>, pred: spec_fn(T) -> bool, gone: spec_fn(T) -> bool)
    requires
        forall|row: T| #[trigger] gone(row) ==> pred(row),
    ensures
        !without(rows, pred).any(gone),
        without(rows, pred).filter(gone).len() == 0,
{
    let kept = |row: T| !pred(row);
    let left = without(rows, pred);
    if left.any(gone) {
        let k = choose|k: int| 0 <= k < left.len() && #[trigger] gone(left[k]);
        lemma_chosen(rows, kept, k);
        assert(kept(left[k]));
    }
    lemma_none_chosen(left, gone);
}

/// Deleting by two predicates that agree on the rows leaves the same rows.
pub proof fn lemma_same_left<T>(rows: Seq<T>, one: spec_fn(T) -> bool, other: spec_fn(T) -> bool)
    requires
        forall|i: int| 0 <= i < rows.len() ==> one(#[trigger] rows[i]) == other(rows[i]),
    ensures
        without(rows, one) == without(rows, other),
    decreases rows.len(),
{
    reveal(Seq::filter);
    if rows.len() > 0 {
        let front = rows.drop_last();
        assert forall|i: int| 0 <= i < front.len() implies one(#[trigger] front[i]) == other(
            front[i],
        ) by {
            assert(front[i] == rows[i]);
        }
        lemma_same_left(front, one, other);
        assert(one(rows[rows.len() - 1]) == other(rows[rows.len() - 1]));
    }
}

/// What no two rows have in common, no two chosen rows have.
pub proof fn lemma_chosen_apart<T>(
    rows: Seq<T>,
    pred: spec_fn(T) -> bool,
    alike: spec_fn(T, T) -> bool,
)
    requires
        forall|i: int, j: int|
            #![trigger rows[i], rows[j]]
            0 <= i < j < rows.len() ==> !alike(rows[i], rows[j]),
    ensures
        forall|i: int, j: int|
            #![trigger rows.filter(pred)[i], rows.filter(pred)[j]]
            0 <= i < j < rows.filter(pred).len() ==> !alike(
                rows.filter(pred)[i],
                rows.filter(pred)[j],
            ),
    decreases rows.len(),
{
    reveal(Seq::filter);
    if rows.len() > 0 {
        let front = rows.drop_last();
        let last = rows.last();
        assert forall|i: int, j: int|
            #![trigger front[i], front[j]]
            0 <= i < j < front.len() implies !alike(front[i], front[j]) by {
            assert(!alike(rows[i], rows[j]));
        }
        lemma_chosen_apart(front, pred, alike);
        let chosen = rows.filter(pred);
        let before = front.filter(pred);
        assert forall|i: int, j: int|
            #![trigger chosen[i], chosen[j]]
            0 <= i < j < chosen.len() implies !alike(chosen[i], chosen[j]) by {
            if j < before.len() {
                assert(!alike(before[i], before[j]));
            } else {
                lemma_chosen(front, pred, i);
                let k = choose|k: int| 0 <= k < front.len() && front[k] == before[i];
                assert(rows[k] == before[i]);
                assert(!alike(rows[k], rows[rows.len() - 1]));
            }
        }
    }
}

/// Where the choice can be told from what is computed, choosing can come before or after computing.
pub proof fn lemma_each_of_chosen<T, U>(
    rows: Seq<T>,
    f: spec_fn(T) -> Result<U, DbError>,
    chosen: spec_fn(T) -> bool,
    shown: spec_fn(U) -> bool,
)
    requires
        each(rows, f) is Ok,
        forall|row: T| #[trigger] f(row) matches Ok(made) ==> shown(made) == chosen(row),
    ensures
        each(rows.filter(chosen), f) == Ok::<Seq<U>, DbError>(each(rows, f)->Ok_0.filter(shown)),
    decreases rows.len(),
{
    reveal(Seq::filter);
    if rows.len() > 0 {
        let front = rows.drop_last();
        let last = rows.last();
        lemma_each_of_chosen(front, f, chosen, shown);
        let made = f(last)->Ok_0;
        lemma_chosen_after_push(each(front, f)->Ok_0, made, shown);
        if chosen(last) {
            assert(front.filter(chosen).push(last).drop_last() =~= front.filter(chosen));
        }
    }
}

/// A pair is joined when its parts are there and belong together.
pub proof fn lemma_joined<L, R>(left: Seq<L>, right: Seq<R>, on: spec_fn(L, R) -> bool, l: L, r: R)
    ensures
        join(left, right, on).contains((l, r)) <==> left.contains(l) && right.contains(r) && on(
            l,
            r,
        ),
    decreases left.len(),
{
    if left.len() > 0 {
        let front = left.drop_last();
        let last = left.last();
        let fits = |r: R| on(last, r);
        let beside = |r: R| (last, r);
        let head = join(front, right, on);
        let tail = right.filter(fits).map_values(beside);
        lemma_joined(front, right, on, l, r);
        assert(join(left, right, on) == head + tail);
        if left.contains(l) && right.contains(r) && on(l, r) {
            let i = choose|i: int| 0 <= i < left.len() && left[i] == l;
            if i < front.len() {
                assert(front[i] == l);
                let k = choose|k: int| 0 <= k < head.len() && head[k] == (l, r);
                assert((head + tail)[k] == (l, r));
            } else {
                let j = choose|j: int| 0 <= j < right.len() && right[j] == r;
                right.lemma_filter_contains(fits, j);
                let k = choose|k: int|
                    0 <= k < right.filter(fits).len() && right.filter(fits)[k] == r;
                assert(tail[k] == (l, r));
                assert((head + tail)[head.len() + k] == (l, r));
            }
        }
        if join(left, right, on).contains((l, r)) {
            let k = choose|k: int| 0 <= k < (head + tail).len() && (head + tail)[k] == (l, r);
            if k < head.len() {
                assert(head[k] == (l, r));
                let i = choose|i: int| 0 <= i < front.len() && front[i] == l;
                assert(left[i] == l);
            } else {
                let j = k - head.len();
                assert(tail[j] == (l, r));
                assert(right.filter(fits)[j] == r);
                lemma_chosen(right, fits, j);
                assert(left[left.len() - 1] == l);
            }
        }
    }
}

/// Where each row on the left belongs with one on the right, joining keeps the number.
pub proof fn lemma_join_len<L, R>(left: Seq<L>, right: Seq<R>, on: spec_fn(L, R) -> bool)
    requires
        forall|i: int|
            0 <= i < left.len() ==> right.filter(|r: R| on(#[trigger] left[i], r)).len() == 1,
    ensures
        join(left, right, on).len() == left.len(),
    decreases left.len(),
{
    if left.len() > 0 {
        let front = left.drop_last();
        assert forall|i: int| 0 <= i < front.len() implies right.filter(
            |r: R| on(#[trigger] front[i], r),
        ).len() == 1 by {
            assert(front[i] == left[i]);
        }
        lemma_join_len(front, right, on);
        assert(left[left.len() - 1] == left.last());
    }
}

/// Where the predicate holds at one place, that row is chosen alone.
pub proof fn lemma_one_chosen<T>(rows: Seq<T>, pred: spec_fn(T) -> bool, at: int)
    requires
        0 <= at < rows.len(),
        forall|i: int| 0 <= i < rows.len() ==> pred(#[trigger] rows[i]) == (i == at),
    ensures
        rows.filter(pred) == seq![rows[at]],
    decreases rows.len(),
{
    reveal(Seq::filter);
    let front = rows.drop_last();
    assert forall|i: int| 0 <= i < front.len() implies pred(#[trigger] front[i]) == (i == at) by {
        assert(front[i] == rows[i]);
    }
    if at == rows.len() - 1 {
        assert(!front.any(pred));
        lemma_none_chosen(front, pred);
        assert(front.filter(pred) =~= Seq::empty());
        assert(pred(rows[at]));
        assert(rows.filter(pred) =~= seq![rows[at]]);
    } else {
        assert(!pred(rows[rows.len() - 1]));
        lemma_one_chosen(front, pred, at);
    }
}

/// Where one row is chosen, the predicate holds at one place.
pub proof fn lemma_one_place<T>(rows: Seq<T>, pred: spec_fn(T) -> bool) -> (at: int)
    requires
        rows.filter(pred).len() == 1,
    ensures
        0 <= at < rows.len(),
        forall|i: int| 0 <= i < rows.len() ==> pred(#[trigger] rows[i]) == (i == at),
    decreases rows.len(),
{
    reveal(Seq::filter);
    let front = rows.drop_last();
    if pred(rows.last()) {
        lemma_none_chosen(front, pred);
        assert forall|i: int| 0 <= i < rows.len() implies pred(#[trigger] rows[i]) == (i
            == rows.len() - 1) by {
            if i < front.len() {
                assert(!pred(front[i]));
            }
        }
        rows.len() - 1
    } else {
        let at = lemma_one_place(front, pred);
        assert forall|i: int| 0 <= i < rows.len() implies pred(#[trigger] rows[i]) == (i == at) by {
            if i < front.len() {
                assert(front[i] == rows[i]);
            }
        }
        at
    }
}

/// The places of the chosen rows, in order.
pub proof fn lemma_places<T>(rows: Seq<T>, pred: spec_fn(T) -> bool) -> (at: Seq<int>)
    ensures
        at.len() == rows.filter(pred).len(),
        forall|k: int|
            0 <= k < at.len() ==> {
                &&& 0 <= #[trigger] at[k] < rows.len()
                &&& pred(rows[at[k]])
                &&& rows.filter(pred)[k] == rows[at[k]]
            },
        forall|k: int, l: int| 0 <= k < l < at.len() ==> at[k] < at[l],
        forall|i: int| 0 <= i < rows.len() && pred(#[trigger] rows[i]) ==> at.contains(i),
    decreases rows.len(),
{
    reveal(Seq::filter);
    if rows.len() == 0 {
        Seq::empty()
    } else {
        let front = rows.drop_last();
        let last = rows.len() - 1;
        let so_far = lemma_places(front, pred);
        assert forall|i: int| 0 <= i < front.len() implies front[i] == rows[i] by {}
        let at = if pred(rows.last()) {
            so_far.push(last)
        } else {
            so_far
        };
        assert forall|k: int| 0 <= k < at.len() implies {
            &&& 0 <= #[trigger] at[k] < rows.len()
            &&& pred(rows[at[k]])
            &&& rows.filter(pred)[k] == rows[at[k]]
        } by {
            if k < so_far.len() {
                assert(at[k] == so_far[k]);
                assert(front[so_far[k]] == rows[at[k]]);
            }
        }
        assert forall|i: int| 0 <= i < rows.len() && pred(#[trigger] rows[i]) implies at.contains(
            i,
        ) by {
            if i < front.len() {
                assert(pred(front[i]));
                let k = choose|k: int| 0 <= k < so_far.len() && so_far[k] == i;
                assert(at[k] == i);
            } else {
                assert(at[so_far.len() as int] == i);
            }
        }
        at
    }
}

/// The first row that the predicate holds of is the first chosen.
pub proof fn lemma_first_chosen<T>(rows: Seq<T>, pred: spec_fn(T) -> bool, first: int)
    requires
        0 <= first < rows.len(),
        pred(rows[first]),
        forall|i: int| 0 <= i < first ==> !pred(#[trigger] rows[i]),
    ensures
        rows.filter(pred).len() > 0,
        rows.filter(pred)[0] == rows[first],
{
    let at = lemma_places(rows, pred);
    assert(at.contains(first));
    let k = choose|k: int| 0 <= k < at.len() && at[k] == first;
    assert(pred(rows[at[0]]));
    if k > 0 {
        assert(at[0] < at[k]);
        assert(!pred(rows[at[0]]));
    }
}

/// More than one row is chosen where the predicate holds at two places.
pub proof fn lemma_two_chosen<T>(rows: Seq<T>, pred: spec_fn(T) -> bool, i: int, j: int)
    requires
        0 <= i < rows.len(),
        0 <= j < rows.len(),
        i != j,
        pred(rows[i]),
        pred(rows[j]),
    ensures
        rows.filter(pred).len() > 1,
{
    lemma_none_chosen(rows, pred);
    if rows.filter(pred).len() == 1 {
        let at = lemma_one_place(rows, pred);
        assert(i == at && j == at);
    }
}

/// Choosing by two predicates that agree on the rows chooses the same rows.
pub proof fn lemma_same_chosen<T>(rows: Seq<T>, one: spec_fn(T) -> bool, other: spec_fn(T) -> bool)
    requires
        forall|i: int| 0 <= i < rows.len() ==> one(#[trigger] rows[i]) == other(rows[i]),
    ensures
        rows.filter(one) == rows.filter(other),
    decreases rows.len(),
{
    reveal(Seq::filter);
    if rows.len() > 0 {
        let front = rows.drop_last();
        assert forall|i: int| 0 <= i < front.len() implies one(#[trigger] front[i]) == other(
            front[i],
        ) by {
            assert(front[i] == rows[i]);
        }
        lemma_same_chosen(front, one, other);
        assert(one(rows[rows.len() - 1]) == other(rows[rows.len() - 1]));
    }
}

/// The places of the joined pairs: each pair of places that belongs together, once.
pub proof fn lemma_joined_places<L, R>(left: Seq<L>, right: Seq<R>, on: spec_fn(L, R) -> bool) -> (at:
    Seq<(int, int)>)
    ensures
        at.len() == join(left, right, on).len(),
        forall|k: int|
            0 <= k < at.len() ==> {
                &&& 0 <= (#[trigger] at[k]).0 < left.len()
                &&& 0 <= at[k].1 < right.len()
                &&& on(left[at[k].0], right[at[k].1])
                &&& join(left, right, on)[k] == (left[at[k].0], right[at[k].1])
            },
        forall|k: int, l: int|
            0 <= k < l < at.len() ==> (#[trigger] at[k]).0 < (#[trigger] at[l]).0 || (at[k].0
                == at[l].0 && at[k].1 < at[l].1),
        forall|i: int, j: int|
            0 <= i < left.len() && 0 <= j < right.len() && #[trigger] on(left[i], right[j])
                ==> at.contains((i, j)),
    decreases left.len(),
{
    if left.len() == 0 {
        Seq::empty()
    } else {
        let front = left.drop_last();
        let last = left.len() - 1;
        let l = left.last();
        let fits = |r: R| on(l, r);
        let beside = |r: R| (l, r);
        let head = lemma_joined_places(front, right, on);
        let places = lemma_places(right, fits);
        let tail = places.map_values(|j: int| (last, j));
        let at = head + tail;
        let rows = join(left, right, on);
        assert(rows == join(front, right, on) + right.filter(fits).map_values(beside));
        assert forall|i: int| 0 <= i < front.len() implies front[i] == left[i] by {}
        assert forall|k: int| 0 <= k < at.len() implies {
            &&& 0 <= (#[trigger] at[k]).0 < left.len()
            &&& 0 <= at[k].1 < right.len()
            &&& on(left[at[k].0], right[at[k].1])
            &&& rows[k] == (left[at[k].0], right[at[k].1])
        } by {
            if k < head.len() {
                assert(at[k] == head[k]);
            } else {
                let m = k - head.len();
                assert(at[k] == tail[m]);
                assert(tail[m] == (last, places[m]));
                assert(fits(right[places[m]]));
            }
        }
        assert forall|k: int, m: int| 0 <= k < m < at.len() implies (#[trigger] at[k]).0 < (
        #[trigger] at[m]).0 || (at[k].0 == at[m].0 && at[k].1 < at[m].1) by {
            if m < head.len() {
                assert(at[k] == head[k] && at[m] == head[m]);
            } else if k < head.len() {
                assert(at[k] == head[k]);
                assert(at[m] == tail[m - head.len()]);
            } else {
                assert(at[k] == tail[k - head.len()] && at[m] == tail[m - head.len()]);
                assert(places[k - head.len()] < places[m - head.len()]);
            }
        }
        assert forall|i: int, j: int|
            0 <= i < left.len() && 0 <= j < right.len() && #[trigger] on(
                left[i],
                right[j],
            ) implies at.contains((i, j)) by {
            if i < front.len() {
                assert(on(front[i], right[j]));
                let k = choose|k: int| 0 <= k < head.len() && head[k] == (i, j);
                assert(at[k] == (i, j));
            } else {
                assert(fits(right[j]));
                let m = choose|m: int| 0 <= m < places.len() && places[m] == j;
                assert(tail[m] == (i, j));
                assert(at[head.len() + m] == (i, j));
            }
        }
        at
    }
}

/// An error comes from one of the rows.
pub proof fn lemma_whose_error<T, U>(rows: Seq<T>, f: spec_fn(T) -> Result<U, DbError>)
    ensures
        each(rows, f) matches Err(error) ==> exists|i: int|
            0 <= i < rows.len() && f(#[trigger] rows[i]) == Err::<U, DbError>(error),
    decreases rows.len(),
{
    if rows.len() > 0 {
        let front = rows.drop_last();
        lemma_whose_error(front, f);
        if let Err(error) = each(front, f) {
            let i = choose|i: int|
                0 <= i < front.len() && f(#[trigger] front[i]) == Err::<U, DbError>(error);
            assert(f(rows[i]) == Err::<U, DbError>(error));
        } else if let Err(error) = f(rows.last()) {
            assert(f(rows[rows.len() - 1]) == Err::<U, DbError>(error));
        }
    }
}

/// Computing from the chosen rows fails exactly when it fails for one of them, and where it does not
/// fail, what comes first comes from the first of them.
pub proof fn lemma_each_chosen<T, U>(
    rows: Seq<T>,
    pred: spec_fn(T) -> bool,
    f: spec_fn(T) -> Result<U, DbError>,
)
    ensures
        forall|i: int|
            0 <= i < rows.len() && pred(#[trigger] rows[i]) && f(rows[i]) is Err ==> each(
                rows.filter(pred),
                f,
            ) is Err,
        each(rows.filter(pred), f) matches Err(error) ==> exists|i: int|
            0 <= i < rows.len() && pred(#[trigger] rows[i]) && f(rows[i]) == Err::<U, DbError>(
                error,
            ),
        each(rows.filter(pred), f) matches Ok(done) ==> {
            &&& done.len() == rows.filter(pred).len()
            &&& forall|i: int|
                0 <= i < rows.len() && pred(#[trigger] rows[i]) && (forall|j: int|
                    0 <= j < i ==> !pred(#[trigger] rows[j])) ==> done.len() > 0 && f(rows[i])
                    == Ok::<U, DbError>(done[0])
        },
{
    let found = rows.filter(pred);
    let at = lemma_places(rows, pred);
    lemma_each_ok(found, f);
    lemma_whose_error(found, f);
    assert forall|i: int|
        0 <= i < rows.len() && pred(#[trigger] rows[i]) && f(rows[i]) is Err implies each(
        found,
        f,
    ) is Err by {
        let k = choose|k: int| 0 <= k < at.len() && at[k] == i;
        assert(found[k] == rows[at[k]]);
    }
    if let Err(error) = each(found, f) {
        let k = choose|k: int|
            0 <= k < found.len() && f(#[trigger] found[k]) == Err::<U, DbError>(error);
        assert(found[k] == rows[at[k]]);
        assert(pred(rows[at[k]]));
    }
    if let Ok(done) = each(found, f) {
        assert forall|i: int|
            0 <= i < rows.len() && pred(#[trigger] rows[i]) && (forall|j: int|
                0 <= j < i ==> !pred(#[trigger] rows[j])) implies done.len() > 0 && f(rows[i])
            == Ok::<U, DbError>(done[0]) by {
            lemma_first_chosen(rows, pred, i);
            assert(f(found[0]) == Ok::<U, DbError>(done[0]));
        }
    }
}

} // verus!
