//! What the statements on the event history mean: which events they select, list and delete.
use vstd::prelude::*;

use crate::alinkwise::uplink_history::{
    filter_parameters, pattern_of, CountQuery, DeletionView, EventFilterView, Filters,
    HistoryDeletionView, ListQuery,
};
use crate::rows::{
    clamped, is_page_of, lemma_agree, lemma_narrower, lemma_none_or_all, lemma_page, page_len,
};
use crate::text::trimmed;

verus! {

/// A database: how it matches texts, puts them in lower case and computes with dates is its own
/// affair.
pub struct EventEngine {
    /// Whether a text is like a pattern, whatever the case.
    pub like: spec_fn(Seq<char>, Seq<char>) -> bool,
    pub lower: spec_fn(Seq<char>) -> Seq<char>,
    /// Whether an event of some time is more than so many days old.
    pub expired: spec_fn(int, i32) -> bool,
}

/// An event, as far as the statements look at it.
pub struct EventRow {
    /// The table that it is in, by its place among the tables.
    pub table: int,
    pub dev_eui: Seq<char>,
    pub time: int,
    /// The port, below zero where the event has none.
    pub f_port: int,
    pub search_text: Seq<char>,
}

/// The kinds of events, one for each table.
pub open spec fn event_types() -> Seq<Seq<char>> {
    seq![
        "up"@,
        "join"@,
        "ack"@,
        "txack"@,
        "log"@,
        "status"@,
        "location"@,
        "integration"@,
    ]
}

/// Whether an event is as the statements see it: it is in one of the tables, and only the events of
/// the first table, which are uplinks, have a port.
pub open spec fn is_event(row: EventRow) -> bool {
    &&& 0 <= row.table < 8
    &&& row.table != 0 ==> row.f_port < 0
}

/// Whether all of the events are as the statements see them.
pub open spec fn in_tables(rows: Seq<EventRow>) -> bool {
    forall|i: int| 0 <= i < rows.len() ==> is_event(#[trigger] rows[i])
}

/// The kind of an event.
pub open spec fn event_type(row: EventRow) -> Seq<char> {
    event_types()[row.table]
}

/// Whether the statements that count and list events select this one.
pub open spec fn selects_event(engine: EventEngine, filter: EventFilterView, row: EventRow) -> bool {
    &&& row.dev_eui == filter.dev_eui
    &&& {
        ||| filter.search.len() == 0
        ||| (engine.like)(event_type(row), filter.search)
        ||| (engine.like)(row.search_text, filter.search)
    }
    &&& filter.f_port < 0 || row.f_port == filter.f_port
    &&& filter.event_type.len() == 0 || event_type(row) == filter.event_type
}

/// The events that the statements select.
pub open spec fn selected_events(
    engine: EventEngine,
    filter: EventFilterView,
    rows: Seq<EventRow>,
) -> Seq<EventRow> {
    rows.filter(|row: EventRow| selects_event(engine, filter, row))
}

/// How many events are counted.
pub open spec fn event_count(
    engine: EventEngine,
    filter: EventFilterView,
    rows: Seq<EventRow>,
) -> int {
    selected_events(engine, filter, rows).len() as int
}

/// Whether the database can answer the list statement with these events: the latest comes first.
pub open spec fn is_event_listing(
    engine: EventEngine,
    filter: EventFilterView,
    limit: int,
    offset: int,
    rows: Seq<EventRow>,
    result: Seq<EventRow>,
) -> bool {
    is_page_of(
        result,
        selected_events(engine, filter, rows),
        |a: EventRow, b: EventRow| a.time >= b.time,
        limit,
        offset,
    )
}

/// A page of events is as long as its limit, at least one and at most a hundred, or as the counted
/// events behind its offset go. Its events are among the counted ones, the latest first.
pub proof fn law_page_of_events(
    engine: EventEngine,
    filters: Filters,
    limit: i64,
    offset: i64,
    count: CountQuery,
    list: ListQuery,
    rows: Seq<EventRow>,
    result: Seq<EventRow>,
)
    requires
        count.filter@ == filter_parameters(filters),
        list.filter@ == filter_parameters(filters),
        list.limit == clamped(limit as int, 1, 100),
        list.offset == (if offset < 0 {
            0
        } else {
            offset
        }),
        is_event_listing(
            engine,
            list.filter@,
            list.limit as int,
            list.offset as int,
            rows,
            result,
        ),
    ensures
        result.len() == page_len(
            event_count(engine, count.filter@, rows),
            clamped(limit as int, 1, 100),
            if offset < 0 {
                0
            } else {
                offset as int
            },
        ),
        forall|i: int|
            0 <= i < result.len() ==> selected_events(engine, count.filter@, rows).contains(
                #[trigger] result[i],
            ),
        forall|i: int, j: int|
            0 <= i < j < result.len() ==> (#[trigger] result[i]).time >= (
            #[trigger] result[j]).time,
{
    let latest = |a: EventRow, b: EventRow| a.time >= b.time;
    lemma_page(
        result,
        selected_events(engine, list.filter@, rows),
        latest,
        list.limit as int,
        list.offset as int,
    );
    assert forall|i: int, j: int| 0 <= i < j < result.len() implies (#[trigger] result[i]).time >= (
    #[trigger] result[j]).time by {
        assert(latest(result[i], result[j]));
    }
}

/// The kinds of events have different names.
proof fn lemma_event_types()
    ensures
        event_types().len() == 8,
        forall|i: int, j: int|
            0 <= i < 8 && 0 <= j < 8 && #[trigger] event_types()[i] == #[trigger] event_types()[j]
                ==> i == j,
        forall|i: int| 0 <= i < 8 ==> (#[trigger] event_types()[i]).len() > 0,
{
    reveal_strlit("up");
    reveal_strlit("join");
    reveal_strlit("ack");
    reveal_strlit("txack");
    reveal_strlit("log");
    reveal_strlit("status");
    reveal_strlit("location");
    reveal_strlit("integration");
    let types = event_types();
    assert(types[0].len() == 2 && types[1].len() == 4 && types[2].len() == 3 && types[3].len() == 5);
    assert(types[4].len() == 3 && types[5].len() == 6 && types[6].len() == 8);
    assert(types[7].len() == 11);
    assert(types[2][0] == 'a' && types[4][0] == 'l');
    assert forall|i: int, j: int| 0 <= i < 8 && 0 <= j < 8 && #[trigger] types[i] == #[trigger] types[j]
        implies i == j by {
        assert(types[i].len() == types[j].len());
        assert(types[i][0] == types[j][0]);
    }
}

/// The events that are counted of the first `n` kinds, one kind after the other.
pub open spec fn count_by_kind(
    engine: EventEngine,
    filter: EventFilterView,
    rows: Seq<EventRow>,
    n: nat,
) -> int
    decreases n,
{
    if n == 0 {
        0
    } else {
        count_by_kind(engine, filter, rows, (n - 1) as nat) + event_count(
            engine,
            EventFilterView { event_type: event_types()[n - 1], ..filter },
            rows,
        )
    }
}

/// One more event is counted once by its own kind, where it is counted at all.
proof fn lemma_count_by_kind(
    engine: EventEngine,
    filter: EventFilterView,
    rows: Seq<EventRow>,
    n: nat,
)
    requires
        rows.len() > 0,
        0 <= rows.last().table < 8,
        n <= 8,
    ensures
        count_by_kind(engine, filter, rows, n) == count_by_kind(
            engine,
            filter,
            rows.drop_last(),
            n,
        ) + if rows.last().table < n && selects_event(
            engine,
            EventFilterView { event_type: Seq::empty(), ..filter },
            rows.last(),
        ) {
            1int
        } else {
            0
        },
    decreases n,
{
    reveal(Seq::filter);
    lemma_event_types();
    if n > 0 {
        lemma_count_by_kind(engine, filter, rows, (n - 1) as nat);
        let row = rows.last();
        let kind = EventFilterView { event_type: event_types()[n - 1], ..filter };
        assert(event_type(row) == kind.event_type <==> row.table == n - 1);
        assert(kind.event_type.len() > 0);
        let all = EventFilterView { event_type: Seq::empty(), ..filter };
        assert(selects_event(engine, kind, row) <==> row.table == n - 1 && selects_event(
            engine,
            all,
            row,
        ));
    }
}

/// The counts of the eight kinds of events add up to the count of all. Any other kind counts none.
pub proof fn law_kinds_add_up(
    engine: EventEngine,
    filter: EventFilterView,
    other: Seq<char>,
    rows: Seq<EventRow>,
)
    requires
        in_tables(rows),
        other.len() > 0,
        !event_types().contains(other),
    ensures
        event_count(engine, EventFilterView { event_type: Seq::empty(), ..filter }, rows)
            == count_by_kind(engine, filter, rows, 8),
        event_count(engine, EventFilterView { event_type: other, ..filter }, rows) == 0,
    decreases rows.len(),
{
    reveal(Seq::filter);
    lemma_event_types();
    if rows.len() > 0 {
        assert(rows.last() == rows[rows.len() - 1]);
        assert forall|i: int| 0 <= i < rows.drop_last().len() implies is_event(
            #[trigger] rows.drop_last()[i],
        ) by {
            assert(rows.drop_last()[i] == rows[i]);
        }
        law_kinds_add_up(engine, filter, other, rows.drop_last());
        lemma_count_by_kind(engine, filter, rows, 8);
        assert(event_types().contains(event_type(rows.last())));
    } else {
        reveal_with_fuel(count_by_kind, 9);
    }
}

/// A request for a port selects uplinks only, and of those the ones of that port.
pub proof fn law_port_selects_uplinks(
    engine: EventEngine,
    filter: EventFilterView,
    rows: Seq<EventRow>,
    i: int,
)
    requires
        in_tables(rows),
        filter.f_port >= 0,
        0 <= i < selected_events(engine, filter, rows).len(),
    ensures
        event_type(selected_events(engine, filter, rows)[i]) == "up"@,
        selected_events(engine, filter, rows)[i].f_port == filter.f_port,
{
    let selects = |row: EventRow| selects_event(engine, filter, row);
    let row = selected_events(engine, filter, rows)[i];
    rows.lemma_filter_pred(selects, i);
    assert(rows.filter(selects).contains(row));
    rows.lemma_filter_contains_rev(selects, row);
    assert(is_event(row));
}

/// Searches that are the same but for white space around them count alike, and white space alone is
/// no search. No search counts more than the one for nothing.
pub proof fn law_search_narrows(
    engine: EventEngine,
    a: Filters,
    b: Filters,
    rows: Seq<EventRow>,
)
    requires
        a.dev_eui@ == b.dev_eui@,
        a.event_type@ == b.event_type@,
        a.f_port == b.f_port,
    ensures
        trimmed(a.search@) == trimmed(b.search@) ==> event_count(
            engine,
            filter_parameters(a),
            rows,
        ) == event_count(engine, filter_parameters(b), rows),
        b.search@.len() == 0 ==> trimmed(b.search@).len() == 0,
        trimmed(b.search@).len() == 0 ==> event_count(engine, filter_parameters(a), rows)
            <= event_count(engine, filter_parameters(b), rows),
{
    let (p, q) = (filter_parameters(a), filter_parameters(b));
    if trimmed(a.search@) == trimmed(b.search@) {
        assert(pattern_of(a.search@) == pattern_of(b.search@));
        assert(p =~= q);
    }
    if trimmed(b.search@).len() == 0 {
        lemma_narrower(
            rows,
            |row: EventRow| selects_event(engine, p, row),
            |row: EventRow| selects_event(engine, q, row),
        );
    }
}

/// Whether a statement of a deletion removes an event: the statement for the table at `table`.
pub open spec fn removes(
    engine: EventEngine,
    deletion: DeletionView,
    table: int,
    row: EventRow,
) -> bool {
    row.table == table && match deletion {
        DeletionView::Device { dev_eui } => (engine.lower)(row.dev_eui) == (engine.lower)(dev_eui),
        DeletionView::Expired { retention_days } => (engine.expired)(row.time, retention_days),
    }
}

/// The events that are left once the statement for a table was executed.
pub open spec fn left(
    engine: EventEngine,
    deletion: DeletionView,
    table: int,
    rows: Seq<EventRow>,
) -> Seq<EventRow> {
    rows.filter(|row: EventRow| !removes(engine, deletion, table, row))
}

/// What has become of a deletion, and of the events, once all of its statements were executed.
pub open spec fn completed(
    engine: EventEngine,
    deletion: HistoryDeletionView,
    rows: Seq<EventRow>,
) -> (HistoryDeletionView, Seq<EventRow>)
    decreases 8 - deletion.next,
{
    if deletion.next >= 8 {
        (deletion, rows)
    } else {
        let rest = left(engine, deletion.deletion, deletion.next, rows);
        completed(engine, deletion.executed(rows.len() - rest.len()), rest)
    }
}

/// Whether a deletion of which `next` tables are still to come removes an event.
pub open spec fn will_remove(
    engine: EventEngine,
    deletion: HistoryDeletionView,
    row: EventRow,
) -> bool {
    deletion.next <= row.table < 8 && removes(engine, deletion.deletion, row.table, row)
}

/// A deletion that is completed left exactly the events that it does not remove, and counted the
/// others.
proof fn lemma_completed(
    engine: EventEngine,
    deletion: HistoryDeletionView,
    rows: Seq<EventRow>,
)
    requires
        0 <= deletion.next <= 8,
    ensures
        ({
            let (end, rest) = completed(engine, deletion, rows);
            &&& end.finished()
            &&& end.deletion == deletion.deletion
            &&& end.deleted == deletion.deleted + rows.len() - rest.len()
            &&& rest == rows.filter(|row: EventRow| !will_remove(engine, deletion, row))
        }),
    decreases 8 - deletion.next,
{
    if deletion.next == 8 {
        lemma_none_or_all(rows, |row: EventRow| !will_remove(engine, deletion, row));
    } else {
        let rest = left(engine, deletion.deletion, deletion.next, rows);
        let after = deletion.executed(rows.len() - rest.len());
        lemma_completed(engine, after, rest);
        lemma_filter_twice(
            rows,
            |row: EventRow| !removes(engine, deletion.deletion, deletion.next, row),
            |row: EventRow| !will_remove(engine, after, row),
            |row: EventRow| !will_remove(engine, deletion, row),
        );
    }
}

/// To select by one condition and then by another is to select by both.
proof fn lemma_filter_twice(
    rows: Seq<EventRow>,
    a: spec_fn(EventRow) -> bool,
    b: spec_fn(EventRow) -> bool,
    both: spec_fn(EventRow) -> bool,
)
    requires
        forall|row: EventRow| #[trigger] both(row) == (a(row) && b(row)),
    ensures
        rows.filter(a).filter(b) == rows.filter(both),
    decreases rows.len(),
{
    reveal(Seq::filter);
    if rows.len() > 0 {
        lemma_filter_twice(rows.drop_last(), a, b, both);
        assert(both(rows.last()) == (a(rows.last()) && b(rows.last())));
        let sub = rows.drop_last().filter(a);
        if a(rows.last()) {
            assert(sub.push(rows.last()).drop_last() =~= sub);
        }
    }
}

/// A deletion for a device removes its events, whatever the case of its identifier, and no others.
/// After that none of them is counted, whatever else is asked for; the deletion reports as many
/// events as are gone. A second deletion removes nothing.
pub proof fn law_deleted_device_has_no_events(
    engine: EventEngine,
    dev_eui: Seq<char>,
    filter: EventFilterView,
    rows: Seq<EventRow>,
)
    requires
        in_tables(rows),
        filter.dev_eui == dev_eui,
    ensures
        ({
            let start = HistoryDeletionView {
                deletion: DeletionView::Device { dev_eui },
                next: 0,
                deleted: 0,
            };
            let (end, rest) = completed(engine, start, rows);
            let (again, same) = completed(engine, start, rest);
            &&& end.finished()
            &&& end.deleted == rows.len() - rest.len()
            &&& rest == rows.filter(
                |row: EventRow| (engine.lower)(row.dev_eui) != (engine.lower)(dev_eui),
            )
            &&& event_count(engine, filter, rest) == 0
            &&& again.deleted == 0
            &&& same == rest
        }),
{
    let start = HistoryDeletionView {
        deletion: DeletionView::Device { dev_eui },
        next: 0,
        deleted: 0,
    };
    let kept = |row: EventRow| !will_remove(engine, start, row);
    let (end, rest) = completed(engine, start, rows);
    lemma_completed(engine, start, rows);
    lemma_completed(engine, start, rest);
    lemma_agree(
        rows,
        kept,
        |row: EventRow| (engine.lower)(row.dev_eui) != (engine.lower)(dev_eui),
    );
    assert forall|i: int| 0 <= i < rest.len() implies kept(#[trigger] rest[i]) && 0 <= rest[i].table
        < 8 by {
        assert(rows.filter(kept).contains(rest[i]));
        rows.lemma_filter_contains_rev(kept, rest[i]);
        rows.lemma_filter_pred(kept, i);
    }
    lemma_none_or_all(rest, kept);
    assert forall|i: int| 0 <= i < rest.len() implies !selects_event(
        engine,
        filter,
        #[trigger] rest[i],
    ) by {
        assert(kept(rest[i]));
    }
    lemma_none_or_all(rest, |row: EventRow| selects_event(engine, filter, row));
}

/// A clean-up removes the expired events, and no others.
pub proof fn law_cleanup_keeps_the_rest(
    engine: EventEngine,
    retention_days: i32,
    rows: Seq<EventRow>,
)
    requires
        in_tables(rows),
    ensures
        ({
            let start = HistoryDeletionView {
                deletion: DeletionView::Expired { retention_days },
                next: 0,
                deleted: 0,
            };
            let (end, rest) = completed(engine, start, rows);
            &&& end.deleted == rows.len() - rest.len()
            &&& rest == rows.filter(|row: EventRow| !(engine.expired)(row.time, retention_days))
        }),
{
    let start = HistoryDeletionView {
        deletion: DeletionView::Expired { retention_days },
        next: 0,
        deleted: 0,
    };
    lemma_completed(engine, start, rows);
    lemma_agree(
        rows,
        |row: EventRow| !will_remove(engine, start, row),
        |row: EventRow| !(engine.expired)(row.time, retention_days),
    );
}

} // verus!
