//! Rows of a database, as mathematical values: what is left of them in a page.
use vstd::prelude::*;

verus! {

/// `n`, or the nearer end of `low..=high`.
pub open spec fn clamped(n: int, low: int, high: int) -> int {
    if n < low {
        low
    } else if n > high {
        high
    } else {
        n
    }
}

/// The page of at most `limit` rows that starts behind the first `offset` rows.
pub open spec fn page<A>(rows: Seq<A>, limit: int, offset: int) -> Seq<A> {
    let start = clamped(offset, 0, rows.len() as int);
    let end = clamped(start + limit, start, rows.len() as int);
    rows.subrange(start, end)
}

/// How many rows a page has: at most `limit` of those behind the first `offset` of `total` rows.
pub open spec fn page_len(total: int, limit: int, offset: int) -> int {
    let rest = if total > offset {
        total - offset
    } else {
        0
    };
    if limit < rest {
        limit
    } else {
        rest
    }
}

/// Whether `rows` has the rows of `others`, in whatever order.
pub open spec fn same_rows<A>(rows: Seq<A>, others: Seq<A>) -> bool {
    rows.to_multiset() == others.to_multiset()
}

/// Whether a page with these rows can come out of `selected`: its rows are put in an order that
/// `ordered` allows for, and the page is cut out of that.
pub open spec fn is_page_of<A>(
    result: Seq<A>,
    selected: Seq<A>,
    ordered: spec_fn(A, A) -> bool,
    limit: int,
    offset: int,
) -> bool {
    exists|all: Seq<A>| #[trigger]
        is_ordering(all, selected, ordered) && result == page(all, limit, offset)
}

/// Whether `all` has the rows of `selected`, in an order that `ordered` allows for.
pub open spec fn is_ordering<A>(
    all: Seq<A>,
    selected: Seq<A>,
    ordered: spec_fn(A, A) -> bool,
) -> bool {
    &&& same_rows(all, selected)
    &&& forall|i: int, j: int| 0 <= i < j < all.len() ==> ordered(#[trigger] all[i], #[trigger] all[j])
}

/// A page is as long as its limit, or as the rows behind its offset go; its rows are among the
/// selected ones, and they are in order. A page that all rows fit in has all of them.
pub proof fn lemma_page<A>(
    result: Seq<A>,
    selected: Seq<A>,
    ordered: spec_fn(A, A) -> bool,
    limit: int,
    offset: int,
)
    requires
        is_page_of(result, selected, ordered, limit, offset),
        limit >= 0,
        offset >= 0,
    ensures
        result.len() == page_len(selected.len() as int, limit, offset),
        forall|i: int| 0 <= i < result.len() ==> selected.contains(#[trigger] result[i]),
        forall|i: int, j: int|
            0 <= i < j < result.len() ==> ordered(#[trigger] result[i], #[trigger] result[j]),
        offset == 0 && limit >= selected.len() ==> same_rows(result, selected),
{
    let all = choose|all: Seq<A>| #[trigger]
        is_ordering(all, selected, ordered) && result == page(all, limit, offset);
    all.to_multiset_ensures();
    selected.to_multiset_ensures();
    assert(all.len() == selected.len());
    let start = clamped(offset, 0, all.len() as int);
    assert forall|i: int| 0 <= i < result.len() implies selected.contains(#[trigger] result[i]) by {
        assert(result[i] == all[start + i]);
        assert(all.contains(all[start + i]));
        assert(all.to_multiset().count(all[start + i]) > 0);
        assert(selected.to_multiset().count(all[start + i]) > 0);
    }
    assert forall|i: int, j: int| 0 <= i < j < result.len() implies ordered(
        #[trigger] result[i],
        #[trigger] result[j],
    ) by {
        assert(result[i] == all[start + i] && result[j] == all[start + j]);
    }
    if offset == 0 && limit >= selected.len() {
        assert(result =~= all);
    }
}

/// What is selected by two conditions, one of which implies the other, is fewer rows by the
/// narrower condition.
pub proof fn lemma_narrower<A>(rows: Seq<A>, narrow: spec_fn(A) -> bool, wide: spec_fn(A) -> bool)
    requires
        forall|i: int| 0 <= i < rows.len() && narrow(#[trigger] rows[i]) ==> wide(rows[i]),
    ensures
        rows.filter(narrow).len() <= rows.filter(wide).len(),
    decreases rows.len(),
{
    reveal(Seq::filter);
    if rows.len() > 0 {
        lemma_narrower(rows.drop_last(), narrow, wide);
        assert(rows.last() == rows[rows.len() - 1]);
    }
}

/// Conditions that agree on all rows select the same rows.
pub proof fn lemma_agree<A>(rows: Seq<A>, a: spec_fn(A) -> bool, b: spec_fn(A) -> bool)
    requires
        forall|i: int| 0 <= i < rows.len() ==> a(#[trigger] rows[i]) == b(rows[i]),
    ensures
        rows.filter(a) == rows.filter(b),
    decreases rows.len(),
{
    reveal(Seq::filter);
    if rows.len() > 0 {
        lemma_agree(rows.drop_last(), a, b);
        assert(rows.last() == rows[rows.len() - 1]);
    }
}

/// A condition that no row meets selects nothing, and one that every row meets selects all.
pub proof fn lemma_none_or_all<A>(rows: Seq<A>, condition: spec_fn(A) -> bool)
    ensures
        (forall|i: int| 0 <= i < rows.len() ==> !condition(#[trigger] rows[i])) ==> rows.filter(
            condition,
        ).len() == 0,
        (forall|i: int| 0 <= i < rows.len() ==> condition(#[trigger] rows[i])) ==> rows.filter(
            condition,
        ) == rows,
    decreases rows.len(),
{
    reveal(Seq::filter);
    if rows.len() > 0 {
        lemma_none_or_all(rows.drop_last(), condition);
        assert(rows.last() == rows[rows.len() - 1]);
        assert(rows.drop_last().push(rows.last()) =~= rows);
        assert(forall|i: int| 0 <= i < rows.drop_last().len() ==> rows.drop_last()[i] == rows[i]);
        if forall|i: int| 0 <= i < rows.len() ==> condition(#[trigger] rows[i]) {
            assert(forall|i: int|
                0 <= i < rows.drop_last().len() ==> condition(#[trigger] rows.drop_last()[i]));
        }
        if forall|i: int| 0 <= i < rows.len() ==> !condition(#[trigger] rows[i]) {
            assert(forall|i: int|
                0 <= i < rows.drop_last().len() ==> !condition(#[trigger] rows.drop_last()[i]));
        }
    } else {
        assert(rows.filter(condition) =~= rows);
    }
}

} // verus!
