//! What the statements do with rows: choosing, joining, counting, deleting and ordering them.

use vstd::prelude::*;

use crate::error::{AppError, DbError, handed_on, seen};

verus! {

broadcast use vstd::seq_lib::group_filter_ensures;

/// The value of a subquery that stands for one value: none when it finds no row, an error when it
/// finds more than one, whether or not the value is then needed.
pub open spec fn scalar<T>(rows: Seq<T>) -> Result<Option<T>, DbError> {
    if rows.len() == 0 {
        Ok(None)
    } else if rows.len() == 1 {
        Ok(Some(rows[0]))
    } else {
        Err(DbError::CardinalityViolation)
    }
}

/// One column of what a subquery that stands for one value finds.
pub open spec fn column<T, U>(found: Result<Option<T>, DbError>, f: spec_fn(T) -> Option<U>) -> Result<
    Option<U>,
    DbError,
> {
    match found {
        Ok(Some(row)) => Ok(f(row)),
        Ok(None) => Ok(None),
        Err(error) => Err(error),
    }
}

/// The first row, or none.
pub open spec fn first<T>(rows: Seq<T>) -> Option<T> {
    if rows.len() == 0 {
        None
    } else {
        Some(rows[0])
    }
}

/// A value computed from a result.
pub open spec fn then_make<T, U>(result: Result<T, DbError>, f: spec_fn(T) -> U) -> Result<
    U,
    DbError,
> {
    match result {
        Ok(value) => Ok(f(value)),
        Err(error) => Err(error),
    }
}

/// The first row of a result that must have one.
pub open spec fn first_of<T>(rows: Result<Seq<T>, DbError>) -> Result<T, DbError> {
    match rows {
        Ok(rows) => match first(rows) {
            Some(row) => Ok(row),
            None => Err(DbError::RowNotFound),
        },
        Err(error) => Err(error),
    }
}

/// The first row of a result, or none.
pub open spec fn first_if_any<T>(rows: Result<Seq<T>, DbError>) -> Result<Option<T>, DbError> {
    match rows {
        Ok(rows) => Ok(first(rows)),
        Err(error) => Err(error),
    }
}

/// The rows of `left` beside those of `right` that `on` pairs them with, in the order of `left`
/// and then of `right`.
pub open spec fn join<L, R>(left: Seq<L>, right: Seq<R>, on: spec_fn(L, R) -> bool) -> Seq<(L, R)>
    decreases left.len(),
{
    if left.len() == 0 {
        Seq::empty()
    } else {
        let l = left.last();
        join(left.drop_last(), right, on) + right.filter(|r: R| on(l, r)).map_values(|r: R| (l, r))
    }
}

/// `rows` with `change` made to those that `pred` holds of.
pub open spec fn changed<T>(rows: Seq<T>, pred: spec_fn(T) -> bool, change: spec_fn(T) -> T) -> Seq<
    T,
> {
    rows.map_values(|row: T| if pred(row) { change(row) } else { row })
}

/// `rows` without those that `pred` holds of.
pub open spec fn without<T>(rows: Seq<T>, pred: spec_fn(T) -> bool) -> Seq<T> {
    rows.filter(|row: T| !pred(row))
}

/// A row computed from each of `rows`, or the error that one of them gives.
pub open spec fn each<T, U>(rows: Seq<T>, f: spec_fn(T) -> Result<U, DbError>) -> Result<
    Seq<U>,
    DbError,
>
    decreases rows.len(),
{
    if rows.len() == 0 {
        Ok(Seq::empty())
    } else {
        match each(rows.drop_last(), f) {
            Ok(done) => match f(rows.last()) {
                Ok(row) => Ok(done.push(row)),
                Err(error) => Err(error),
            },
            Err(error) => Err(error),
        }
    }
}

pub proof fn lemma_filter_step<T>(rows: Seq<T>, pred: spec_fn(T) -> bool, i: int)
    requires
        0 <= i < rows.len(),
    ensures
        rows.take(i + 1).filter(pred) == if pred(rows[i]) {
            rows.take(i).filter(pred).push(rows[i])
        } else {
            rows.take(i).filter(pred)
        },
{
    reveal(Seq::filter);
    assert(rows.take(i + 1).drop_last() =~= rows.take(i));
}

pub proof fn lemma_each_step<T, U>(rows: Seq<T>, f: spec_fn(T) -> Result<U, DbError>, i: int)
    requires
        0 <= i < rows.len(),
    ensures
        each(rows.take(i + 1), f) == match each(rows.take(i), f) {
            Ok(done) => match f(rows[i]) {
                Ok(row) => Ok(done.push(row)),
                Err(error) => Err(error),
            },
            Err(error) => Err(error),
        },
{
    assert(rows.take(i + 1).drop_last() =~= rows.take(i));
}

/// An error in the rows so far is the error of the whole.
pub proof fn lemma_each_error<T, U>(rows: Seq<T>, f: spec_fn(T) -> Result<U, DbError>, i: int)
    requires
        0 <= i <= rows.len(),
        each(rows.take(i), f) is Err,
    ensures
        each(rows, f) == each(rows.take(i), f),
    decreases rows.len() - i,
{
    if i == rows.len() {
        assert(rows.take(i) =~= rows);
    } else {
        lemma_each_step(rows, f, i);
        lemma_each_error(rows, f, i + 1);
    }
}

/// Where each row can be computed, the result has them all, in order.
pub proof fn lemma_each_ok<T, U>(rows: Seq<T>, f: spec_fn(T) -> Result<U, DbError>)
    ensures
        each(rows, f) is Ok <==> forall|i: int| 0 <= i < rows.len() ==> f(#[trigger] rows[i]) is Ok,
        each(rows, f) matches Ok(done) ==> {
            &&& done.len() == rows.len()
            &&& forall|i: int| 0 <= i < rows.len() ==> f(#[trigger] rows[i]) == Ok::<U, DbError>(done[i])
        },
    decreases rows.len(),
{
    if rows.len() > 0 {
        let front = rows.drop_last();
        lemma_each_ok(front, f);
        assert forall|i: int| 0 <= i < front.len() implies front[i] == rows[i] by {}
        if each(rows, f) is Ok {
            assert forall|i: int| 0 <= i < rows.len() implies f(#[trigger] rows[i]) is Ok by {
                if i < front.len() {
                    assert(f(front[i]) is Ok);
                }
            }
            assert forall|i: int| 0 <= i < rows.len() implies f(#[trigger] rows[i]) == Ok::<
                U,
                DbError,
            >(each(rows, f)->Ok_0[i]) by {
                if i < front.len() {
                    assert(f(front[i]) == Ok::<U, DbError>(each(front, f)->Ok_0[i]));
                }
            }
        } else if forall|i: int| 0 <= i < rows.len() ==> f(#[trigger] rows[i]) is Ok {
            assert forall|i: int| 0 <= i < front.len() implies f(#[trigger] front[i]) is Ok by {
                assert(f(rows[i]) is Ok);
            }
            assert(f(rows[rows.len() - 1]) is Ok);
        }
    }
}

pub proof fn lemma_each_map<T, U>(rows: Seq<T>, f: spec_fn(T) -> Result<U, DbError>, g: spec_fn(T) -> U)
    requires
        forall|row: T| #[trigger] f(row) == Ok::<U, DbError>(g(row)),
    ensures
        each(rows, f) == Ok::<Seq<U>, DbError>(rows.map_values(g)),
{
    lemma_each_ok(rows, f);
    assert forall|i: int| 0 <= i < rows.len() implies f(#[trigger] rows[i]) is Ok by {}
    let done = each(rows, f)->Ok_0;
    assert forall|i: int| 0 <= i < rows.len() implies done[i] == g(rows[i]) by {
        assert(f(rows[i]) == Ok::<U, DbError>(done[i]));
    }
    assert(done =~= rows.map_values(g));
}

pub proof fn lemma_join_step<L, R>(
    left: Seq<L>,
    right: Seq<R>,
    on: spec_fn(L, R) -> bool,
    i: int,
)
    requires
        0 <= i < left.len(),
    ensures
        join(left.take(i + 1), right, on) == join(left.take(i), right, on) + right.filter(
            |r: R| on(left[i], r),
        ).map_values(|r: R| (left[i], r)),
{
    assert(left.take(i + 1).drop_last() =~= left.take(i));
}

/// The rows that `keep` holds of, by position.
pub(crate) fn positions<T: DeepView, F: Fn(&T) -> bool>(
    rows: &Vec<T>,
    keep: F,
    Ghost(pred): Ghost<spec_fn(T::V) -> bool>,
) -> (found: Vec<usize>)
    requires
        forall|row: &T| call_requires(keep, (row,)),
        forall|row: &T, kept: bool|
            call_ensures(keep, (row,), kept) ==> kept == pred(row.deep_view()),
    ensures
        forall|k: int| 0 <= k < found.len() ==> #[trigger] found[k] < rows.len(),
        found@.map_values(|p: usize| rows.deep_view()[p as int]) == rows.deep_view().filter(pred),
{
    let mut found: Vec<usize> = Vec::new();
    let mut i: usize = 0;
    let ghost all = rows.deep_view();
    let ghost at = |p: usize| all[p as int];
    proof {
        reveal(Seq::filter);
        assert(found@.map_values(at) =~= all.take(0).filter(pred));
    }
    while i < rows.len()
        invariant
            i <= rows.len(),
            all == rows.deep_view(),
            at == (|p: usize| all[p as int]),
            forall|row: &T| call_requires(keep, (row,)),
            forall|row: &T, kept: bool|
                call_ensures(keep, (row,), kept) ==> kept == pred(row.deep_view()),
            forall|k: int| 0 <= k < found.len() ==> #[trigger] found[k] < rows.len(),
            found@.map_values(at) == all.take(i as int).filter(pred),
        decreases rows.len() - i,
    {
        let ghost before = found@;
        proof {
            lemma_filter_step(all, pred, i as int);
        }
        if keep(&rows[i]) {
            found.push(i);
            assert(found@.map_values(at) =~= before.map_values(at).push(all[i as int]));
        }
        i = i + 1;
    }
    assert(all.take(i as int) =~= all);
    found
}

/// What a subquery that stands for one value finds among the rows that `keep` holds of, by
/// position.
pub(crate) fn one_where<T: DeepView, F: Fn(&T) -> bool>(
    rows: &Vec<T>,
    keep: F,
    Ghost(pred): Ghost<spec_fn(T::V) -> bool>,
) -> (one: Result<Option<usize>, DbError>)
    requires
        forall|row: &T| call_requires(keep, (row,)),
        forall|row: &T, kept: bool|
            call_ensures(keep, (row,), kept) ==> kept == pred(row.deep_view()),
    ensures
        one matches Ok(Some(p)) ==> p < rows.len(),
        column(one, |p: usize| Some(rows.deep_view()[p as int])) == scalar(
            rows.deep_view().filter(pred),
        ),
{
    let found = positions(rows, keep, Ghost(pred));
    let ghost chosen = found@.map_values(|p: usize| rows.deep_view()[p as int]);
    assert(chosen.len() == found.len());
    if found.len() == 0 {
        Ok(None)
    } else if found.len() == 1 {
        assert(chosen[0] == rows.deep_view()[found@[0] as int]);
        Ok(Some(found[0]))
    } else {
        Err(DbError::CardinalityViolation)
    }
}

/// Whether `keep` holds of some row.
pub(crate) fn any_where<T: DeepView, F: Fn(&T) -> bool>(
    rows: &Vec<T>,
    keep: F,
    Ghost(pred): Ghost<spec_fn(T::V) -> bool>,
) -> (any: bool)
    requires
        forall|row: &T| call_requires(keep, (row,)),
        forall|row: &T, kept: bool|
            call_ensures(keep, (row,), kept) ==> kept == pred(row.deep_view()),
    ensures
        any == rows.deep_view().any(pred),
{
    let mut i: usize = 0;
    let ghost all = rows.deep_view();
    while i < rows.len()
        invariant
            i <= rows.len(),
            all == rows.deep_view(),
            forall|row: &T| call_requires(keep, (row,)),
            forall|row: &T, kept: bool|
                call_ensures(keep, (row,), kept) ==> kept == pred(row.deep_view()),
            forall|k: int| 0 <= k < i ==> !pred(#[trigger] all[k]),
        decreases rows.len() - i,
    {
        if keep(&rows[i]) {
            assert(pred(all[i as int]));
            return true;
        }
        i = i + 1;
    }
    false
}

/// Deletes the rows that `drop` holds of and counts them.
pub(crate) fn delete_where<T: DeepView, F: Fn(&T) -> bool>(
    rows: &mut Vec<T>,
    drop: F,
    Ghost(pred): Ghost<spec_fn(T::V) -> bool>,
) -> (count: usize)
    requires
        forall|row: &T| call_requires(drop, (row,)),
        forall|row: &T, dropped: bool|
            call_ensures(drop, (row,), dropped) ==> dropped == pred(row.deep_view()),
    ensures
        final(rows).deep_view() == without(old(rows).deep_view(), pred),
        count == old(rows).deep_view().filter(pred).len(),
{
    let ghost all = rows.deep_view();
    let ghost kept = |row: T::V| !pred(row);
    let total: usize = rows.len();
    let mut i: usize = 0;
    let mut count: usize = 0;
    proof {
        reveal(Seq::filter);
        assert(all.skip(0) =~= all);
        assert(all.take(0).filter(kept) =~= Seq::empty());
    }
    while i < rows.len()
        invariant
            i <= rows.len(),
            kept == (|row: T::V| !pred(row)),
            forall|row: &T| call_requires(drop, (row,)),
            forall|row: &T, dropped: bool|
                call_ensures(drop, (row,), dropped) ==> dropped == pred(row.deep_view()),
            all.len() == total,
            i + count <= all.len(),
            rows.len() + count == all.len(),
            rows.deep_view() == all.take(i + count).filter(kept) + all.skip(i + count),
            all.take(i + count).filter(kept).len() == i,
            all.take(i + count).filter(pred).len() == count,
        decreases rows.len() - i,
    {
        let ghost at = i + count;
        let ghost done = all.take(at).filter(kept);
        let ghost before = rows.deep_view();
        assert(before[i as int] == all[at]);
        assert(rows[i as int].deep_view() == all[at]);
        proof {
            lemma_filter_step(all, kept, at);
            lemma_filter_step(all, pred, at);
        }
        if drop(&rows[i]) {
            rows.remove(i);
            assert(rows.deep_view() =~= before.remove(i as int));
            assert(rows.deep_view() =~= done + all.skip(at + 1));
            count = count + 1;
        } else {
            assert(before =~= done.push(all[at]) + all.skip(at + 1));
            i = i + 1;
        }
    }
    proof {
        assert(all.take(i + count) =~= all);
        assert(all.skip(i + count) =~= Seq::empty());
        assert(rows.deep_view() =~= all.filter(kept));
    }
    count
}

/// Makes `change` to the rows that `keep` holds of and counts them.
pub(crate) fn update_where<T: DeepView, P: Fn(&T) -> bool, C: Fn(&T) -> T>(
    rows: &mut Vec<T>,
    keep: P,
    change: C,
    Ghost(pred): Ghost<spec_fn(T::V) -> bool>,
    Ghost(new_row): Ghost<spec_fn(T::V) -> T::V>,
) -> (count: usize)
    requires
        forall|row: &T| call_requires(keep, (row,)),
        forall|row: &T, kept: bool|
            call_ensures(keep, (row,), kept) ==> kept == pred(row.deep_view()),
        forall|row: &T| call_requires(change, (row,)),
        forall|row: &T, made: T|
            call_ensures(change, (row,), made) ==> made.deep_view() == new_row(row.deep_view()),
    ensures
        final(rows).deep_view() == changed(old(rows).deep_view(), pred, new_row),
        count == old(rows).deep_view().filter(pred).len(),
{
    let ghost before = rows.deep_view();
    let ghost all = changed(before, pred, new_row);
    let mut i: usize = 0;
    let mut count: usize = 0;
    proof {
        reveal(Seq::filter);
        assert(before.skip(0) =~= before);
    }
    while i < rows.len()
        invariant
            i <= rows.len(),
            rows.len() == before.len(),
            all == changed(before, pred, new_row),
            forall|row: &T| call_requires(keep, (row,)),
            forall|row: &T, kept: bool|
                call_ensures(keep, (row,), kept) ==> kept == pred(row.deep_view()),
            forall|row: &T| call_requires(change, (row,)),
            forall|row: &T, made: T|
                call_ensures(change, (row,), made) ==> made.deep_view() == new_row(row.deep_view()),
            rows.deep_view() == all.take(i as int) + before.skip(i as int),
            count <= i,
            count == before.take(i as int).filter(pred).len(),
        decreases rows.len() - i,
    {
        let ghost now = rows.deep_view();
        assert(now[i as int] == before[i as int]);
        assert(rows[i as int].deep_view() == before[i as int]);
        proof {
            lemma_filter_step(before, pred, i as int);
        }
        if keep(&rows[i]) {
            let made = change(&rows[i]);
            rows.set(i, made);
            assert(rows.deep_view() =~= now.update(i as int, new_row(before[i as int])));
            count = count + 1;
        }
        assert(rows.deep_view() =~= all.take(i + 1) + before.skip(i + 1));
        i = i + 1;
    }
    assert(all.take(i as int) + before.skip(i as int) =~= all);
    assert(before.take(i as int) =~= before);
    count
}

/// A result of the database with its value as a mathematical one.
pub open spec fn plain<T: DeepView>(result: Result<T, DbError>) -> Result<T::V, DbError> {
    match result {
        Ok(value) => Ok(value.deep_view()),
        Err(error) => Err(error),
    }
}

/// A row computed from each of the rows at the positions `found`.
pub(crate) fn each_row<T: DeepView, U: DeepView, F: Fn(&T) -> Result<U, DbError>>(
    rows: &Vec<T>,
    found: &Vec<usize>,
    f: F,
    Ghost(row_of): Ghost<spec_fn(T::V) -> Result<U::V, DbError>>,
) -> (result: Result<Vec<U>, DbError>)
    requires
        forall|k: int| 0 <= k < found.len() ==> #[trigger] found[k] < rows.len(),
        forall|row: &T| call_requires(f, (row,)),
        forall|row: &T, made: Result<U, DbError>|
            call_ensures(f, (row,), made) ==> plain(made) == row_of(row.deep_view()),
    ensures
        plain(result) == each(
            found@.map_values(|p: usize| rows.deep_view()[p as int]),
            row_of,
        ),
{
    let ghost chosen = found@.map_values(|p: usize| rows.deep_view()[p as int]);
    let mut made: Vec<U> = Vec::new();
    let mut k: usize = 0;
    assert(made.deep_view() =~= Seq::<U::V>::empty());
    while k < found.len()
        invariant
            k <= found.len(),
            chosen == found@.map_values(|p: usize| rows.deep_view()[p as int]),
            forall|k: int| 0 <= k < found.len() ==> #[trigger] found[k] < rows.len(),
            forall|row: &T| call_requires(f, (row,)),
            forall|row: &T, made: Result<U, DbError>|
                call_ensures(f, (row,), made) ==> plain(made) == row_of(row.deep_view()),
            each(chosen.take(k as int), row_of) == Ok::<Seq<U::V>, DbError>(made.deep_view()),
        decreases found.len() - k,
    {
        let ghost before = made.deep_view();
        proof {
            lemma_each_step(chosen, row_of, k as int);
        }
        let p: usize = found[k];
        assert(chosen[k as int] == rows[p as int].deep_view());
        match f(&rows[p]) {
            Ok(row) => {
                made.push(row);
                assert(made.deep_view() =~= before.push(row.deep_view()));
            },
            Err(error) => {
                proof {
                    lemma_each_error(chosen, row_of, k + 1);
                }
                return Err(error);
            },
        }
        k = k + 1;
    }
    assert(chosen.take(k as int) =~= chosen);
    Ok(made)
}

/// The pairs that `on` joins, by position.
pub(crate) fn joined<L: DeepView, R: DeepView, F: Fn(&L, &R) -> bool>(
    left: &Vec<L>,
    right: &Vec<R>,
    on: F,
    Ghost(pred): Ghost<spec_fn(L::V, R::V) -> bool>,
) -> (found: Vec<(usize, usize)>)
    requires
        forall|l: &L, r: &R| call_requires(on, (l, r)),
        forall|l: &L, r: &R, kept: bool|
            call_ensures(on, (l, r), kept) ==> kept == pred(l.deep_view(), r.deep_view()),
    ensures
        forall|k: int|
            0 <= k < found.len() ==> (#[trigger] found[k]).0 < left.len() && found[k].1
                < right.len(),
        found@.map_values(
            |p: (usize, usize)| (left.deep_view()[p.0 as int], right.deep_view()[p.1 as int]),
        ) == join(left.deep_view(), right.deep_view(), pred),
{
    let ghost ls = left.deep_view();
    let ghost rs = right.deep_view();
    let ghost at = |p: (usize, usize)| (ls[p.0 as int], rs[p.1 as int]);
    let mut found: Vec<(usize, usize)> = Vec::new();
    let mut i: usize = 0;
    assert(found@.map_values(at) =~= join(ls.take(0), rs, pred));
    while i < left.len()
        invariant
            i <= left.len(),
            ls == left.deep_view(),
            rs == right.deep_view(),
            at == (|p: (usize, usize)| (ls[p.0 as int], rs[p.1 as int])),
            forall|l: &L, r: &R| call_requires(on, (l, r)),
            forall|l: &L, r: &R, kept: bool|
                call_ensures(on, (l, r), kept) ==> kept == pred(l.deep_view(), r.deep_view()),
            forall|k: int|
                0 <= k < found.len() ==> (#[trigger] found[k]).0 < left.len() && found[k].1
                    < right.len(),
            found@.map_values(at) == join(ls.take(i as int), rs, pred),
        decreases left.len() - i,
    {
        let ghost l = ls[i as int];
        let ghost fits = |r: R::V| pred(l, r);
        let ghost beside = |r: R::V| (l, r);
        let ghost start = found@.map_values(at);
        let mut j: usize = 0;
        proof {
            reveal(Seq::filter);
            lemma_join_step(ls, rs, pred, i as int);
            assert(start + rs.take(0).filter(fits).map_values(beside) =~= start);
        }
        while j < right.len()
            invariant
                i < left.len(),
                j <= right.len(),
                ls == left.deep_view(),
                rs == right.deep_view(),
                l == ls[i as int],
                fits == (|r: R::V| pred(l, r)),
                beside == (|r: R::V| (l, r)),
                at == (|p: (usize, usize)| (ls[p.0 as int], rs[p.1 as int])),
                forall|l: &L, r: &R| call_requires(on, (l, r)),
                forall|l: &L, r: &R, kept: bool|
                    call_ensures(on, (l, r), kept) ==> kept == pred(l.deep_view(), r.deep_view()),
                forall|k: int|
                    0 <= k < found.len() ==> (#[trigger] found[k]).0 < left.len() && found[k].1
                        < right.len(),
                found@.map_values(at) == start + rs.take(j as int).filter(fits).map_values(beside),
            decreases right.len() - j,
        {
            let ghost before = found@;
            let ghost so_far = rs.take(j as int).filter(fits);
            proof {
                lemma_filter_step(rs, fits, j as int);
            }
            if on(&left[i], &right[j]) {
                found.push((i, j));
                assert(found@.map_values(at) =~= before.map_values(at).push((l, rs[j as int])));
                assert(so_far.push(rs[j as int]).map_values(beside) =~= so_far.map_values(
                    beside,
                ).push((l, rs[j as int])));
                assert(found@.map_values(at) =~= start + so_far.push(rs[j as int]).map_values(
                    beside,
                ));
            }
            j = j + 1;
        }
        assert(rs.take(j as int) =~= rs);
        i = i + 1;
    }
    assert(ls.take(i as int) =~= ls);
    found
}

/// A row computed from each of the pairs at the positions `found`.
pub(crate) fn each_pair<
    L: DeepView,
    R: DeepView,
    U: DeepView,
    F: Fn(&L, &R) -> Result<U, DbError>,
>(
    left: &Vec<L>,
    right: &Vec<R>,
    found: &Vec<(usize, usize)>,
    f: F,
    Ghost(row_of): Ghost<spec_fn((L::V, R::V)) -> Result<U::V, DbError>>,
) -> (result: Result<Vec<U>, DbError>)
    requires
        forall|k: int|
            0 <= k < found.len() ==> (#[trigger] found[k]).0 < left.len() && found[k].1
                < right.len(),
        forall|l: &L, r: &R| call_requires(f, (l, r)),
        forall|l: &L, r: &R, made: Result<U, DbError>|
            call_ensures(f, (l, r), made) ==> plain(made) == row_of((l.deep_view(), r.deep_view())),
    ensures
        plain(result) == each(
            found@.map_values(
                |p: (usize, usize)| (left.deep_view()[p.0 as int], right.deep_view()[p.1 as int]),
            ),
            row_of,
        ),
{
    let ghost chosen = found@.map_values(
        |p: (usize, usize)| (left.deep_view()[p.0 as int], right.deep_view()[p.1 as int]),
    );
    let mut made: Vec<U> = Vec::new();
    let mut k: usize = 0;
    assert(made.deep_view() =~= Seq::<U::V>::empty());
    while k < found.len()
        invariant
            k <= found.len(),
            chosen == found@.map_values(
                |p: (usize, usize)| (left.deep_view()[p.0 as int], right.deep_view()[p.1 as int]),
            ),
            forall|k: int|
                0 <= k < found.len() ==> (#[trigger] found[k]).0 < left.len() && found[k].1
                    < right.len(),
            forall|l: &L, r: &R| call_requires(f, (l, r)),
            forall|l: &L, r: &R, made: Result<U, DbError>|
                call_ensures(f, (l, r), made) ==> plain(made) == row_of(
                    (l.deep_view(), r.deep_view()),
                ),
            each(chosen.take(k as int), row_of) == Ok::<Seq<U::V>, DbError>(made.deep_view()),
        decreases found.len() - k,
    {
        let ghost before = made.deep_view();
        proof {
            lemma_each_step(chosen, row_of, k as int);
        }
        let (i, j): (usize, usize) = found[k];
        assert(found[k as int].0 < left.len());
        assert(chosen[k as int] == (left[i as int].deep_view(), right[j as int].deep_view()));
        match f(&left[i], &right[j]) {
            Ok(row) => {
                made.push(row);
                assert(made.deep_view() =~= before.push(row.deep_view()));
            },
            Err(error) => {
                proof {
                    lemma_each_error(chosen, row_of, k + 1);
                }
                return Err(error);
            },
        }
        k = k + 1;
    }
    assert(chosen.take(k as int) =~= chosen);
    Ok(made)
}

/// `fetch_one` on the rows of a reply: the first, or [`DbError::RowNotFound`].
pub(crate) fn fetch_one<T: DeepView>(rows: Result<Vec<T>, DbError>) -> (row: Result<T, AppError>)
    ensures
        seen(row) == handed_on(first_of(plain(rows))),
{
    match rows {
        Ok(rows) => {
            let mut rows = rows;
            if rows.len() == 0 {
                Err(AppError::Database(DbError::RowNotFound))
            } else {
                Ok(rows.swap_remove(0))
            }
        },
        Err(error) => Err(AppError::Database(error)),
    }
}

/// `fetch_optional` on the rows of a reply: the first, or none.
pub(crate) fn fetch_optional<T: DeepView>(rows: Result<Vec<T>, DbError>) -> (row: Result<
    Option<T>,
    AppError,
>)
    ensures
        seen(row) == handed_on(first_if_any(plain(rows))),
{
    match rows {
        Ok(rows) => {
            let mut rows = rows;
            if rows.len() == 0 {
                Ok(None)
            } else {
                Ok(Some(rows.swap_remove(0)))
            }
        },
        Err(error) => Err(AppError::Database(error)),
    }
}

/// `fetch_all` on the rows of a reply.
pub(crate) fn fetch_all<T: DeepView>(rows: Result<Vec<T>, DbError>) -> (all: Result<
    Vec<T>,
    AppError,
>)
    ensures
        seen(all) == handed_on(plain(rows)),
{
    match rows {
        Ok(rows) => Ok(rows),
        Err(error) => Err(AppError::Database(error)),
    }
}

} // verus!
