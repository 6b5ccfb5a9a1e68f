//! Events: which of them a request is about, how they are listed, and how they are deleted.
use vstd::prelude::*;

use crate::alinkwise::history_rows::{
    event_type, is_event_listing, selected_events, selects_event, EventEngine, EventRow,
};
use crate::alinkwise::uplink_history::{
    delete_expired, delete_for_device, get_count, history_union_sql, list, port_parameter,
    row_to_item, search_pattern, CountQuery, Deletion, DeletionStep, DeletionView,
    DeviceUplinkHistoryItem, Filters, HistoryDeletion, HistoryRow, ListQuery,
    HISTORY_TABLES,
};
use crate::rows::{is_ordering, lemma_agree, page, same_rows};
use crate::text::{is_white_space, trimmed, trimmed_end, trimmed_start};

verus! {

/// Whether a character is a tab, a line break, a space or one of the other spaces of Unicode.
pub open spec fn is_space(c: char) -> bool {
    ||| '\t' <= c <= '\r'
    ||| c == ' '
    ||| c == '\u{85}'
    ||| c == '\u{a0}'
    ||| c == '\u{1680}'
    ||| '\u{2000}' <= c <= '\u{200a}'
    ||| c == '\u{2028}'
    ||| c == '\u{2029}'
    ||| c == '\u{202f}'
    ||| c == '\u{205f}'
    ||| c == '\u{3000}'
}

proof fn lemma_spaces()
    ensures
        forall|c: char| #[trigger] is_white_space(c) == is_space(c),
        forall|c: char| #[trigger] is_space(c) == is_white_space(c),
{
    assert forall|c: char| #[trigger] is_white_space(c) == is_space(c) by {
        lemma_space(c);
    }
}

proof fn lemma_space(c: char)
    ensures
        is_white_space(c) == is_space(c),
{
    assert(c as u32 == c as int);
}

/// Whether a text is made of white space.
pub open spec fn is_blank(s: Seq<char>) -> bool {
    forall|i: int| 0 <= i < s.len() ==> is_space(#[trigger] s[i])
}

/// Whether `s` is `core` with `left` before it and `right` behind it, both of them white space, and
/// `core` neither starts nor ends with white space.
pub open spec fn is_core_between(
    s: Seq<char>,
    left: Seq<char>,
    core: Seq<char>,
    right: Seq<char>,
) -> bool {
    &&& s == left + core + right
    &&& is_blank(left)
    &&& is_blank(right)
    &&& core.len() > 0 ==> !is_space(core[0]) && !is_space(core.last())
}

/// Whether `core` is what is left of `s` without the white space around it.
pub open spec fn is_core(s: Seq<char>, core: Seq<char>) -> bool {
    exists|left: Seq<char>, right: Seq<char>| is_core_between(s, left, core, right)
}

proof fn lemma_start(left: Seq<char>, rest: Seq<char>)
    requires
        is_blank(left),
        rest.len() > 0 ==> !is_space(rest[0]),
    ensures
        trimmed_start(left + rest) == rest,
    decreases left.len(),
{
    lemma_spaces();
    let s = left + rest;
    if left.len() > 0 {
        assert(s[0] == left[0]);
        assert(s.drop_first() =~= left.drop_first() + rest);
        assert forall|i: int| 0 <= i < left.drop_first().len() implies is_space(
            #[trigger] left.drop_first()[i],
        ) by {
            assert(is_space(left[i + 1]));
        }
        lemma_start(left.drop_first(), rest);
    } else {
        assert(s =~= rest);
    }
}

proof fn lemma_end(rest: Seq<char>, right: Seq<char>)
    requires
        is_blank(right),
        rest.len() > 0 ==> !is_space(rest.last()),
    ensures
        trimmed_end(rest + right) == rest,
    decreases right.len(),
{
    lemma_spaces();
    let s = rest + right;
    if right.len() > 0 {
        assert(s.last() == right[right.len() - 1]);
        assert(s.drop_last() =~= rest + right.drop_last());
        lemma_end(rest, right.drop_last());
    } else {
        assert(s =~= rest);
    }
}

proof fn lemma_core(s: Seq<char>, core: Seq<char>)
    requires
        is_core(s, core),
    ensures
        trimmed(s) == core,
{
    lemma_spaces();
    let (left, right) = choose|left: Seq<char>, right: Seq<char>|
        is_core_between(s, left, core, right);
    if core.len() > 0 {
        assert(s =~= left + (core + right));
        lemma_start(left, core + right);
        lemma_end(core, right);
    } else {
        assert forall|i: int| 0 <= i < s.len() implies is_space(#[trigger] s[i]) by {
            if i < left.len() {
                assert(s[i] == left[i]);
            } else {
                assert(s[i] == right[i - left.len()]);
            }
        }
        assert(s + core =~= s);
        lemma_start(s, core);
        assert(core =~= Seq::empty());
    }
}

proof fn lemma_trimmed_start(s: Seq<char>) -> (left: Seq<char>)
    ensures
        is_blank(left),
        s == left + trimmed_start(s),
        trimmed_start(s).len() > 0 ==> !is_space(trimmed_start(s)[0]),
    decreases s.len(),
{
    lemma_spaces();
    if s.len() > 0 && is_space(s[0]) {
        let rest = lemma_trimmed_start(s.drop_first());
        let left = seq![s[0]] + rest;
        assert forall|i: int| 0 <= i < left.len() implies is_space(#[trigger] left[i]) by {
            if i > 0 {
                assert(left[i] == rest[i - 1]);
            }
        }
        assert(s =~= seq![s[0]] + s.drop_first());
        assert(s.drop_first() == rest + trimmed_start(s));
        assert(s =~= left + trimmed_start(s));
        left
    } else {
        assert(s =~= Seq::<char>::empty() + s);
        Seq::empty()
    }
}

proof fn lemma_trimmed_end(s: Seq<char>) -> (right: Seq<char>)
    ensures
        is_blank(right),
        s == trimmed_end(s) + right,
        trimmed_end(s).len() > 0 ==> {
            &&& !is_space(trimmed_end(s).last())
            &&& trimmed_end(s)[0] == s[0]
        },
    decreases s.len(),
{
    lemma_spaces();
    if s.len() > 0 && is_space(s.last()) {
        let rest = lemma_trimmed_end(s.drop_last());
        let right = rest.push(s.last());
        assert forall|i: int| 0 <= i < right.len() implies is_space(#[trigger] right[i]) by {
            if i < rest.len() {
                assert(right[i] == rest[i]);
            }
        }
        assert(s =~= s.drop_last().push(s.last()));
        assert(s.drop_last() == trimmed_end(s) + rest);
        assert(s =~= trimmed_end(s) + right);
        right
    } else {
        assert(s =~= s + Seq::<char>::empty());
        Seq::empty()
    }
}

/// Of every text something is left without the white space around it, in one way only.
pub proof fn law_every_text_has_a_core(s: Seq<char>)
    ensures
        exists|core: Seq<char>| is_core(s, core),
        forall|core: Seq<char>, other: Seq<char>|
            #[trigger] is_core(s, core) && #[trigger] is_core(s, other) ==> core == other,
{
    let left = lemma_trimmed_start(s);
    let right = lemma_trimmed_end(trimmed_start(s));
    assert(s =~= left + trimmed(s) + right);
    assert(is_core_between(s, left, trimmed(s), right));
    assert(is_core(s, trimmed(s)));
    assert forall|core: Seq<char>, other: Seq<char>|
        #[trigger] is_core(s, core) && #[trigger] is_core(s, other) implies core == other by {
        lemma_core(s, core);
        lemma_core(s, other);
    }
}

/// A search is for what is left of it without the white space around it, anywhere in a text. A
/// search for white space alone is no search.
pub proof fn law_search_pattern(search: &str, core: Seq<char>, r: String)
    requires
        call_ensures(search_pattern, (search,), r),
        is_core(search@, core),
    ensures
        core.len() == 0 ==> r@.len() == 0,
        core.len() > 0 ==> r@ == "%"@ + core + "%"@,
{
    lemma_core(search@, core);
}

/// Whether an event is one that a request is about, which searches for `core`: it is of the device;
/// where there is something to search for, that is in the kind of the event or in its text; where a
/// port is asked for, the event is of that port; and where a kind is asked for, it is of that kind.
/// There are no ports beyond `i32::MAX`, and a request for one is for every port.
pub open spec fn is_event_asked_for(
    engine: EventEngine,
    filters: Filters,
    core: Seq<char>,
    row: EventRow,
) -> bool {
    let pattern = "%"@ + core + "%"@;
    &&& row.dev_eui == filters.dev_eui@
    &&& core.len() == 0 || (engine.like)(event_type(row), pattern) || (engine.like)(
        row.search_text,
        pattern,
    )
    &&& filters.f_port is None || filters.f_port->0 > i32::MAX || row.f_port == filters.f_port->0
    &&& filters.event_type@.len() == 0 || event_type(row) == filters.event_type@
}

proof fn lemma_patterns(core: Seq<char>)
    ensures
        ("%"@ + core + "%"@).len() == core.len() + 2,
{
    reveal_strlit("%");
}

proof fn lemma_port(f_port: Option<u32>)
    ensures
        f_port is None || f_port->0 > i32::MAX ==> port_parameter(f_port) < 0,
        f_port is Some && f_port->0 <= i32::MAX ==> port_parameter(f_port) == f_port->0,
{
    if let Some(port) = f_port {
        assert(port > 0x7fff_ffff ==> (port as i32) < 0) by (bit_vector);
        assert(port <= 0x7fff_ffff ==> (port as i32) == port) by (bit_vector);
    }
}

/// An event is counted exactly if the request is about it.
pub proof fn law_counted_events(
    engine: EventEngine,
    filters: &Filters,
    core: Seq<char>,
    query: CountQuery,
    row: EventRow,
)
    requires
        call_ensures(get_count, (filters,), query),
        is_core(filters.search@, core),
    ensures
        selects_event(engine, query.filter@, row) <==> is_event_asked_for(
            engine,
            *filters,
            core,
            row,
        ),
{
    lemma_core(filters.search@, core);
    lemma_patterns(core);
    lemma_port(filters.f_port);
}

/// Where a port is asked for, every counted event has that port, whatever else is asked for.
pub proof fn law_counted_events_have_the_port(
    engine: EventEngine,
    filters: &Filters,
    port: u32,
    query: CountQuery,
    row: EventRow,
)
    requires
        call_ensures(get_count, (filters,), query),
        filters.f_port == Some(port),
        port <= i32::MAX,
        selects_event(engine, query.filter@, row),
    ensures
        row.f_port == port,
{
    lemma_port(filters.f_port);
}

/// Whether `all` are the events that a request is about, the latest first.
pub open spec fn are_all_events_asked_for(
    engine: EventEngine,
    filters: Filters,
    core: Seq<char>,
    rows: Seq<EventRow>,
    all: Seq<EventRow>,
) -> bool {
    &&& same_rows(all, rows.filter(|row: EventRow| is_event_asked_for(engine, filters, core, row)))
    &&& forall|i: int, j: int|
        0 <= i < j < all.len() ==> (#[trigger] all[i]).time >= (#[trigger] all[j]).time
}

/// A page of events is cut out of all the events that the request is about, the latest first: at
/// most `limit` of them, behind the first `offset`. A page has room for at least one event and for
/// at most a hundred, and no page starts before the first event.
pub proof fn law_listed_events(
    engine: EventEngine,
    limit: i64,
    offset: i64,
    filters: &Filters,
    core: Seq<char>,
    query: ListQuery,
    rows: Seq<EventRow>,
    result: Seq<EventRow>,
)
    requires
        call_ensures(list, (limit, offset, filters), query),
        is_core(filters.search@, core),
        is_event_listing(
            engine,
            query.filter@,
            query.limit as int,
            query.offset as int,
            rows,
            result,
        ),
    ensures
        exists|all: Seq<EventRow>| #[trigger]
            are_all_events_asked_for(engine, *filters, core, rows, all) && {
                let room = if limit < 1 {
                    1
                } else if limit > 100 {
                    100
                } else {
                    limit as int
                };
                let start = if offset < 0 {
                    0
                } else {
                    offset as int
                };
                let end = if all.len() - start < room {
                    all.len() as int
                } else {
                    start + room
                };
                result == (if start <= all.len() {
                    all.subrange(start, end)
                } else {
                    Seq::empty()
                })
            },
{
    lemma_core(filters.search@, core);
    lemma_patterns(core);
    lemma_port(filters.f_port);
    let latest = |a: EventRow, b: EventRow| a.time >= b.time;
    let all = choose|all: Seq<EventRow>| #[trigger]
        is_ordering(all, selected_events(engine, query.filter@, rows), latest) && result == page(
            all,
            query.limit as int,
            query.offset as int,
        );
    lemma_agree(
        rows,
        |row: EventRow| selects_event(engine, query.filter@, row),
        |row: EventRow| is_event_asked_for(engine, *filters, core, row),
    );
    assert forall|i: int, j: int| 0 <= i < j < all.len() implies (#[trigger] all[i]).time >= (
    #[trigger] all[j]).time by {
        assert(latest(all[i], all[j]));
    }
    assert(are_all_events_asked_for(engine, *filters, core, rows, all));
    let start: int = if offset < 0 {
        0
    } else {
        offset as int
    };
    let room: int = if limit < 1 {
        1
    } else if limit > 100 {
        100
    } else {
        limit as int
    };
    let end: int = if all.len() - start < room {
        all.len() as int
    } else {
        start + room
    };
    if start <= all.len() {
        assert(result =~= all.subrange(start, end));
    } else {
        assert(result =~= Seq::empty());
    }
}

/// A page of events has room for at least one and for at most a hundred, and starts no earlier than
/// with the first event; a page that keeps to that is as it was asked for.
pub proof fn law_room_of_a_page(limit: i64, offset: i64, filters: &Filters, query: ListQuery)
    requires
        call_ensures(list, (limit, offset, filters), query),
    ensures
        1 <= query.limit <= 100,
        1 <= limit <= 100 ==> query.limit == limit,
        limit < 1 ==> query.limit == 1,
        limit > 100 ==> query.limit == 100,
        query.offset >= 0,
        offset >= 0 ==> query.offset == offset,
        offset < 0 ==> query.offset == 0,
{
}

/// Events are counted and listed by statements that select from the union of all tables by the same
/// four parameters; the list is in the order of time, from the latest event on.
pub proof fn law_statements(
    filters: &Filters,
    limit: i64,
    offset: i64,
    count: CountQuery,
    page: ListQuery,
    union: &'static str,
)
    requires
        call_ensures(get_count, (filters,), count),
        call_ensures(list, (limit, offset, filters), page),
        call_ensures(history_union_sql, (), union),
    ensures
        ({
            let filter =
                r#") as event
        where (
            $2 = ''
            or event_type ilike $2
            or search_text ilike $2
        )
          and ($3 < 0 or f_port = $3)
          and ($4 = '' or event_type = $4)
        "#;
            &&& count.sql@ == r#"
        select count(*)::bigint
        from ("#@ + union@ + filter@
            &&& page.sql@ == r#"
        select
            deduplication_id,
            event_type,
            to_char(time at time zone 'UTC', 'YYYY-MM-DD"T"HH24:MI:SS.MS"Z"'),
            dev_addr,
            dr,
            f_cnt,
            f_port,
            confirmed,
            data_hex,
            object_json,
            rx_info_json,
            tx_info_json,
            tags_json,
            summary_json
        from ("#@ + union@ + filter@ + r#"order by time desc
        limit $5 offset $6
        "#@
        }),
{
}

/// The events of a device come from eight tables, each of which gives the same columns in the same
/// order, and its own name for the kind of its events. Only uplinks have a port.
pub proof fn law_union_of_tables(r: &'static str)
    requires
        call_ensures(history_union_sql, (), r),
    ensures
        r@ == r#"
        select
            deduplication_id::text as deduplication_id,
            'up'::text as event_type,
            time as time,
            dev_addr::text as dev_addr,
            dr::int as dr,
            f_cnt::text as f_cnt,
            f_port::int as f_port,
            confirmed as confirmed,
            encode(data, 'hex') as data_hex,
            object::text as object_json,
            rx_info::text as rx_info_json,
            tx_info::text as tx_info_json,
            tags::text as tags_json,
            jsonb_build_object(
                'devAddr', dev_addr::text,
                'fCnt', f_cnt,
                'fPort', f_port,
                'dr', dr,
                'confirmed', confirmed,
                'dataHex', encode(data, 'hex')
            )::text as summary_json,
            concat_ws(' ', dev_addr::text, f_cnt::text, f_port::text, dr::text, encode(data, 'hex'), object::text, rx_info::text) as search_text
        from event_up
        where dev_eui = $1

        union all

        select
            deduplication_id::text,
            'join'::text,
            time,
            dev_addr::text,
            0,
            '',
            -1,
            false,
            '',
            '{}'::jsonb::text,
            '[]'::jsonb::text,
            '{}'::jsonb::text,
            tags::text,
            jsonb_build_object('devAddr', dev_addr::text)::text,
            concat_ws(' ', dev_addr::text, tags::text)
        from event_join
        where dev_eui = $1

        union all

        select
            queue_item_id::text,
            'ack'::text,
            time,
            '',
            0,
            f_cnt_down::text,
            -1,
            acknowledged,
            '',
            '{}'::jsonb::text,
            '[]'::jsonb::text,
            '{}'::jsonb::text,
            tags::text,
            jsonb_build_object('queueItemId', queue_item_id::text, 'deduplicationId', deduplication_id::text, 'acknowledged', acknowledged, 'fCntDown', f_cnt_down)::text,
            concat_ws(' ', queue_item_id::text, deduplication_id::text, acknowledged::text, f_cnt_down::text, tags::text)
        from event_ack
        where dev_eui = $1

        union all

        select
            queue_item_id::text,
            'txack'::text,
            time,
            '',
            0,
            f_cnt_down::text,
            -1,
            false,
            '',
            '{}'::jsonb::text,
            '[]'::jsonb::text,
            tx_info::text,
            tags::text,
            jsonb_build_object('queueItemId', queue_item_id::text, 'downlinkId', downlink_id, 'fCntDown', f_cnt_down, 'gatewayId', gateway_id::text)::text,
            concat_ws(' ', queue_item_id::text, downlink_id::text, f_cnt_down::text, gateway_id::text, tx_info::text, tags::text)
        from event_tx_ack
        where dev_eui = $1

        union all

        select
            id::text,
            'log'::text,
            time,
            '',
            0,
            '',
            -1,
            false,
            '',
            context::text,
            '[]'::jsonb::text,
            '{}'::jsonb::text,
            tags::text,
            jsonb_build_object('level', level, 'code', code, 'description', description)::text,
            concat_ws(' ', id::text, level, code, description, context::text, tags::text)
        from event_log
        where dev_eui = $1

        union all

        select
            deduplication_id::text,
            'status'::text,
            time,
            '',
            0,
            '',
            -1,
            false,
            '',
            jsonb_build_object(
                'margin', margin,
                'externalPowerSource', external_power_source,
                'batteryLevelUnavailable', battery_level_unavailable,
                'batteryLevel', battery_level
            )::text,
            '[]'::jsonb::text,
            '{}'::jsonb::text,
            tags::text,
            jsonb_build_object('margin', margin, 'batteryLevel', battery_level, 'externalPowerSource', external_power_source)::text,
            concat_ws(' ', margin::text, external_power_source::text, battery_level_unavailable::text, battery_level::text, tags::text)
        from event_status
        where dev_eui = $1

        union all

        select
            deduplication_id::text,
            'location'::text,
            time,
            '',
            0,
            '',
            -1,
            false,
            '',
            jsonb_build_object(
                'latitude', latitude,
                'longitude', longitude,
                'altitude', altitude,
                'source', source,
                'accuracy', accuracy
            )::text,
            '[]'::jsonb::text,
            '{}'::jsonb::text,
            tags::text,
            jsonb_build_object('latitude', latitude, 'longitude', longitude, 'altitude', altitude, 'source', source, 'accuracy', accuracy)::text,
            concat_ws(' ', latitude::text, longitude::text, altitude::text, source, accuracy::text, tags::text)
        from event_location
        where dev_eui = $1

        union all

        select
            deduplication_id::text,
            'integration'::text,
            time,
            '',
            0,
            '',
            -1,
            false,
            '',
            object::text,
            '[]'::jsonb::text,
            '{}'::jsonb::text,
            tags::text,
            jsonb_build_object(
                'integrationName', integration_name,
                'eventType', event_type,
                'object', object
            )::text,
            concat_ws(' ', integration_name, event_type, object::text, tags::text)
        from event_integration
        where dev_eui = $1
    "#@,
{
}

/// An event is shown as its row has it; a data-rate or a port below zero is shown as 0.
pub proof fn law_row_to_item(row: HistoryRow, r: DeviceUplinkHistoryItem)
    requires
        call_ensures(row_to_item, (row,), r),
    ensures
        r.deduplication_id@ == row.deduplication_id@,
        r.event_type@ == row.event_type@,
        r.time@ == row.time@,
        r.dev_addr@ == row.dev_addr@,
        r.f_cnt@ == row.f_cnt@,
        r.confirmed == row.confirmed,
        r.data_hex@ == row.data_hex@,
        r.object_json@ == row.object_json@,
        r.rx_info_json@ == row.rx_info_json@,
        r.tx_info_json@ == row.tx_info_json@,
        r.tags_json@ == row.tags_json@,
        r.summary_json@ == row.summary_json@,
        row.dr >= 0 ==> r.dr == row.dr,
        row.dr < 0 ==> r.dr == 0,
        row.f_port >= 0 ==> r.f_port == row.f_port,
        row.f_port < 0 ==> r.f_port == 0,
{
}

/// The name of the table at a place.
pub open spec fn is_table(place: int, name: Seq<char>) -> bool {
    &&& place == 0 ==> name == "event_up"@
    &&& place == 1 ==> name == "event_join"@
    &&& place == 2 ==> name == "event_ack"@
    &&& place == 3 ==> name == "event_tx_ack"@
    &&& place == 4 ==> name == "event_log"@
    &&& place == 5 ==> name == "event_status"@
    &&& place == 6 ==> name == "event_location"@
    &&& place == 7 ==> name == "event_integration"@
}

/// Whether a statement deletes from a table, as the deletion has it.
pub open spec fn deletes_from(
    deletion: DeletionView,
    table: Seq<char>,
    sql: Seq<char>,
    context: Seq<char>,
) -> bool {
    &&& deletion is Device ==> sql == "delete from "@ + table
        + " where lower(dev_eui::text) = lower($1)"@ && context == "Delete device history from "@
        + table
    &&& deletion is Expired ==> sql == "delete from "@ + table
        + " where time < now() - make_interval(days => $1)"@ && context
        == "Delete expired history from "@ + table
}

/// A deletion goes on with the next table until all eight are behind it, and then says how many rows
/// are gone.
pub proof fn law_deletion_step(deletion: &HistoryDeletion, r: DeletionStep)
    requires
        call_ensures(HistoryDeletion::step, (deletion,), r),
        0 <= deletion@.next <= 8,
    ensures
        r is Finished <==> deletion@.next == 8,
        r matches DeletionStep::Finished { deleted } ==> deleted == deletion@.deleted,
        r matches DeletionStep::Execute(statement) ==> exists|table: Seq<char>| #[trigger]
            is_table(deletion@.next, table) && deletes_from(
                deletion@.deletion,
                table,
                statement.sql@,
                statement.context@,
            ),
{
    if let DeletionStep::Execute(statement) = r {
        let table = HISTORY_TABLES@[deletion@.next]@;
        assert(is_table(deletion@.next, table));
    }
}

/// What a deletion is for can be read from it.
pub proof fn law_deletion(deletion: &HistoryDeletion, r: &Deletion)
    requires
        call_ensures(HistoryDeletion::deletion, (deletion,), r),
    ensures
        r is Device <==> deletion@.deletion is Device,
        r matches Deletion::Device { dev_eui } ==> deletion@.deletion == (DeletionView::Device {
            dev_eui: dev_eui@,
        }),
        r matches Deletion::Expired { retention_days } ==> deletion@.deletion == (
        DeletionView::Expired { retention_days: *retention_days }),
{
}

/// A statement that was executed puts its table behind the deletion, and its rows on top.
pub proof fn law_deletion_executed(deletion: &mut HistoryDeletion, rows: u64)
    requires
        call_ensures(HistoryDeletion::executed, (deletion, rows), ()),
    ensures
        final(deletion)@.next == old(deletion)@.next + 1,
        final(deletion)@.deleted == old(deletion)@.deleted + rows,
        final(deletion)@.deletion == old(deletion)@.deletion,
{
}

/// The events of a device are deleted from all tables, from the first one on.
pub proof fn law_delete_for_device(dev_eui: &str, r: HistoryDeletion)
    requires
        call_ensures(delete_for_device, (dev_eui,), r),
    ensures
        r@.next == 0,
        r@.deleted == 0,
        r@.deletion == (DeletionView::Device { dev_eui: dev_eui@ }),
{
}

/// Old events are deleted from all tables, from the first one on, unless they are kept for no days:
/// that keeps them all.
pub proof fn law_delete_expired(retention_days: u32, r: HistoryDeletion)
    requires
        call_ensures(delete_expired, (retention_days,), r),
    ensures
        r@.deleted == 0,
        r@.deletion is Expired,
        retention_days == 0 ==> r@.next == 8,
        retention_days > 0 ==> r@.next == 0,
        retention_days <= i32::MAX ==> r@.deletion->retention_days == retention_days,
        retention_days > i32::MAX ==> r@.deletion->retention_days == retention_days
            - 0x1_0000_0000,
{
    assert(retention_days <= 0x7fff_ffff ==> (retention_days as i32) == retention_days)
        by (bit_vector);
    assert(retention_days > 0x7fff_ffff ==> (retention_days as i32) == retention_days
        - 0x1_0000_0000) by (bit_vector);
}

} // verus!
