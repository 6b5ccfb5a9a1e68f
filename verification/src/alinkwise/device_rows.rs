//! What the queries for devices mean: which rows of the database they select, and in which order
//! those are listed.
use vstd::prelude::*;

use crate::alinkwise::device_query::{
    conditions, conditions_view, id_conditions, max_silence, online_conditions, order_column,
    order_keys, search_conditions, tag_conditions, Activity, Column, ConditionView, CountQuery,
    Database, Filters, ListQuery, Nulls, OnlineState, OrderBy, OrderKey,
};
use crate::rows::{is_page_of, lemma_agree, lemma_page, page_len, same_rows};
use crate::tags::{as_map, distinct_keys, key_at, lemma_as_map};
use crate::time::Timestamp;

verus! {

/// A database at some moment: how it matches and orders texts is its own affair.
pub struct Engine {
    pub db: Database,
    /// What the clock of the database says.
    pub now: Timestamp,
    /// Whether a text is like a pattern; the last argument says whether the case is ignored.
    pub like: spec_fn(Seq<char>, Seq<char>, bool) -> bool,
    /// Whether a text comes before another, or is ordered alike.
    pub text_le: spec_fn(Seq<char>, Seq<char>) -> bool,
}

/// A device, joined with its application and its device profile.
pub struct DeviceRow {
    pub tenant_id: u128,
    pub application_id: u128,
    pub device_profile_id: u128,
    pub dev_eui: u64,
    pub name: Seq<char>,
    pub application_name: Seq<char>,
    pub device_profile_name: Seq<char>,
    pub created_at: int,
    pub updated_at: int,
    pub tags: Map<Seq<char>, Seq<char>>,
    pub activity: Activity,
}

/// Whether a device that was last seen at `seen` stayed silent no longer at `now` than it may.
/// SQLite is asked in whole seconds.
pub open spec fn seen_lately(
    db: Database,
    seen: Timestamp,
    uplink_interval: i32,
    now: Timestamp,
) -> bool {
    match db {
        Database::Postgres => now.instant() - max_silence(uplink_interval) <= seen.instant(),
        Database::Sqlite => (now.seconds - seen.seconds) * 1_000_000_000 <= max_silence(
            uplink_interval,
        ),
    }
}

/// Whether a device with that activity is in `state` at `now`.
pub open spec fn in_state(
    db: Database,
    state: OnlineState,
    activity: Activity,
    now: Timestamp,
) -> bool {
    match state {
        OnlineState::All => true,
        OnlineState::Disabled => activity.is_disabled,
        OnlineState::NeverSeen => !activity.is_disabled && activity.last_seen_at is None,
        OnlineState::Online => !activity.is_disabled && activity.last_seen_at is Some && seen_lately(
            db,
            activity.last_seen_at->0,
            activity.uplink_interval,
            now,
        ),
        OnlineState::Offline => !activity.is_disabled && activity.last_seen_at is Some
            && !seen_lately(db, activity.last_seen_at->0, activity.uplink_interval, now),
    }
}

/// Whether a device has a tag.
pub open spec fn has_tag(row: DeviceRow, tag: (Seq<char>, Seq<char>)) -> bool {
    row.tags.contains_key(tag.0) && row.tags[tag.0] == tag.1
}

/// Whether a device has all of these tags.
pub open spec fn has_tags(row: DeviceRow, tags: Seq<(Seq<char>, Seq<char>)>) -> bool {
    forall|i: int| 0 <= i < tags.len() ==> #[trigger] has_tag(row, tags[i])
}

/// Whether a row meets a condition. The key of a `Tag` stands in quotation marks in the SQL; what
/// is said of it here holds of a key without such a mark.
pub open spec fn admits(engine: Engine, condition: ConditionView, row: DeviceRow) -> bool {
    match condition {
        ConditionView::Tenant(id) => row.tenant_id == id,
        ConditionView::Application(id) => row.application_id == id,
        ConditionView::DeviceProfile(id) => row.device_profile_id == id,
        ConditionView::NameLike { pattern, ignore_case } => {
            ||| (engine.like)(row.name, pattern, ignore_case)
            ||| (engine.like)(row.application_name, pattern, ignore_case)
            ||| (engine.like)(row.device_profile_name, pattern, ignore_case)
        },
        ConditionView::Disabled => in_state(
            engine.db,
            OnlineState::Disabled,
            row.activity,
            engine.now,
        ),
        ConditionView::NeverSeen => in_state(
            engine.db,
            OnlineState::NeverSeen,
            row.activity,
            engine.now,
        ),
        ConditionView::SeenLately => in_state(
            engine.db,
            OnlineState::Online,
            row.activity,
            engine.now,
        ),
        ConditionView::SilentTooLong => in_state(
            engine.db,
            OnlineState::Offline,
            row.activity,
            engine.now,
        ),
        ConditionView::Tags(tags) => has_tags(row, tags),
        ConditionView::Tag { key, value } => has_tag(row, (key, value)),
    }
}

/// Whether a row meets all of the conditions.
pub open spec fn selects(engine: Engine, all: Seq<ConditionView>, row: DeviceRow) -> bool {
    forall|i: int| 0 <= i < all.len() ==> admits(engine, #[trigger] all[i], row)
}

/// The rows of a table that meet all of the conditions.
pub open spec fn selected(
    engine: Engine,
    all: Seq<ConditionView>,
    table: Seq<DeviceRow>,
) -> Seq<DeviceRow> {
    table.filter(|row: DeviceRow| selects(engine, all, row))
}

/// How many devices of a table a request counts.
pub open spec fn device_count(engine: Engine, filters: Filters, table: Seq<DeviceRow>) -> int {
    selected(engine, conditions(engine.db, filters), table).len() as int
}

/// Whether a value comes before another by a column, or is ordered alike, in ascending order. A
/// column without a value is left aside.
pub open spec fn column_le(engine: Engine, column: Column, a: DeviceRow, b: DeviceRow) -> bool {
    match column {
        Column::DeviceName => (engine.text_le)(a.name, b.name),
        Column::DevEui => a.dev_eui <= b.dev_eui,
        Column::LastSeenAt => match (a.activity.last_seen_at, b.activity.last_seen_at) {
            (Some(x), Some(y)) => x.instant() <= y.instant(),
            _ => true,
        },
        Column::DeviceProfileName => (engine.text_le)(
            a.device_profile_name,
            b.device_profile_name,
        ),
        Column::ApplicationName => (engine.text_le)(a.application_name, b.application_name),
        Column::CreatedAt => a.created_at <= b.created_at,
        Column::UpdatedAt => a.updated_at <= b.updated_at,
    }
}

/// Whether a row has no value in a column.
pub open spec fn is_null(column: Column, row: DeviceRow) -> bool {
    column is LastSeenAt && row.activity.last_seen_at is None
}

/// Whether the rows without a value come first by a key. Unless it is told otherwise, PostgreSQL
/// takes no value for the largest, and SQLite for the smallest.
pub open spec fn nulls_first(db: Database, key: OrderKey) -> bool {
    match key.nulls {
        Nulls::First => true,
        Nulls::Last => false,
        Nulls::Default => match db {
            Database::Postgres => key.descending,
            Database::Sqlite => !key.descending,
        },
    }
}

/// Whether a row comes before another by a key, or is ordered alike.
pub open spec fn key_le(engine: Engine, key: OrderKey, a: DeviceRow, b: DeviceRow) -> bool {
    if is_null(key.column, a) || is_null(key.column, b) {
        if nulls_first(engine.db, key) {
            is_null(key.column, a)
        } else {
            is_null(key.column, b)
        }
    } else if key.descending {
        column_le(engine, key.column, b, a)
    } else {
        column_le(engine, key.column, a, b)
    }
}

/// Whether a row can be listed before another: by the first key, and where both are ordered alike
/// by it, by the next.
pub open spec fn ordered(engine: Engine, keys: Seq<OrderKey>, a: DeviceRow, b: DeviceRow) -> bool
    decreases keys.len(),
{
    keys.len() > 0 ==> {
        &&& key_le(engine, keys[0], a, b)
        &&& key_le(engine, keys[0], b, a) ==> ordered(engine, keys.drop_first(), a, b)
    }
}

/// Whether the database can answer a query for a page of devices with these rows.
pub open spec fn is_listing(
    engine: Engine,
    all: Seq<ConditionView>,
    keys: Seq<OrderKey>,
    limit: int,
    offset: int,
    table: Seq<DeviceRow>,
    result: Seq<DeviceRow>,
) -> bool {
    is_page_of(
        result,
        selected(engine, all, table),
        |a: DeviceRow, b: DeviceRow| ordered(engine, keys, a, b),
        limit,
        offset,
    )
}

/// Of all the conditions of a query, the one for the requested state alone looks at the activity
/// of a device: a device that the query selects is in that state, and one that meets the other
/// conditions is selected if it is in that state.
pub proof fn law_query_selects_state(engine: Engine, filters: Filters, row: DeviceRow)
    ensures
        selects(engine, conditions(engine.db, filters), row) <==> in_state(
            engine.db,
            filters.online_state,
            row.activity,
            engine.now,
        ) && selects(
            engine,
            conditions(engine.db, Filters { online_state: OnlineState::All, ..filters }),
            row,
        ),
{
    let db = engine.db;
    let head = seq![ConditionView::Tenant(filters.tenant_id)]
        + id_conditions(filters.application_id, |id: u128| ConditionView::Application(id))
        + id_conditions(filters.device_profile_id, |id: u128| ConditionView::DeviceProfile(id))
        + search_conditions(db, filters.search);
    let middle = online_conditions(filters.online_state);
    let tail = tag_conditions(db, filters.tags@);
    let all = conditions(db, filters);
    let rest = conditions(db, Filters { online_state: OnlineState::All, ..filters });
    assert(all =~= head + middle + tail);
    assert(rest =~= head + tail);
    let (h, m) = (head.len() as int, middle.len() as int);
    assert(forall|i: int| 0 <= i < h ==> all[i] == rest[i]);
    assert(forall|i: int| h <= i < rest.len() ==> #[trigger] rest[i] == all[i + m]);
    assert(forall|i: int| h + m <= i < all.len() ==> #[trigger] all[i] == rest[i - m]);
    if filters.online_state != OnlineState::All {
        assert(m == 1);
        assert(all[h] == middle[0]);
    }
    if selects(engine, all, row) {
        assert forall|i: int| 0 <= i < rest.len() implies admits(engine, #[trigger] rest[i], row) by {
            if i < h {
                assert(admits(engine, all[i], row));
            } else {
                assert(admits(engine, all[i + m], row));
            }
        }
        if m == 1 {
            assert(admits(engine, all[h], row));
        }
    }
    if selects(engine, rest, row) && in_state(db, filters.online_state, row.activity, engine.now) {
        assert forall|i: int| 0 <= i < all.len() implies admits(engine, #[trigger] all[i], row) by {
            if i < h {
                assert(admits(engine, rest[i], row));
            } else if i >= h + m {
                assert(admits(engine, rest[i - m], row));
            }
        }
    }
}

/// At any time, every device is in exactly one of the states online, offline, never seen and
/// disabled.
pub proof fn law_states_partition(db: Database, activity: Activity, now: Timestamp)
    ensures
        exists|state: OnlineState|
            state != OnlineState::All && #[trigger] in_state(db, state, activity, now),
        forall|a: OnlineState, b: OnlineState|
            a != OnlineState::All && b != OnlineState::All && #[trigger] in_state(
                db,
                a,
                activity,
                now,
            ) && #[trigger] in_state(db, b, activity, now) ==> a == b,
{
    if activity.is_disabled {
        assert(in_state(db, OnlineState::Disabled, activity, now));
    } else if activity.last_seen_at is None {
        assert(in_state(db, OnlineState::NeverSeen, activity, now));
    } else if seen_lately(db, activity.last_seen_at->0, activity.uplink_interval, now) {
        assert(in_state(db, OnlineState::Online, activity, now));
    } else {
        assert(in_state(db, OnlineState::Offline, activity, now));
    }
}

/// How many devices a request counts that asks for a state besides everything else.
pub open spec fn state_count(
    engine: Engine,
    filters: Filters,
    state: OnlineState,
    table: Seq<DeviceRow>,
) -> int {
    device_count(engine, Filters { online_state: state, ..filters }, table)
}

/// The devices that are online, offline, never seen and disabled add up to all devices.
pub proof fn law_states_add_up(engine: Engine, filters: Filters, table: Seq<DeviceRow>)
    ensures
        state_count(engine, filters, OnlineState::All, table) == state_count(
            engine,
            filters,
            OnlineState::Online,
            table,
        ) + state_count(engine, filters, OnlineState::Offline, table) + state_count(
            engine,
            filters,
            OnlineState::NeverSeen,
            table,
        ) + state_count(engine, filters, OnlineState::Disabled, table),
    decreases table.len(),
{
    reveal(Seq::filter);
    if table.len() > 0 {
        law_states_add_up(engine, filters, table.drop_last());
        let row = table.last();
        let with = |state: OnlineState| Filters { online_state: state, ..filters };
        law_query_selects_state(engine, with(OnlineState::All), row);
        law_query_selects_state(engine, with(OnlineState::Online), row);
        law_query_selects_state(engine, with(OnlineState::Offline), row);
        law_query_selects_state(engine, with(OnlineState::NeverSeen), row);
        law_query_selects_state(engine, with(OnlineState::Disabled), row);
    }
}

/// In PostgreSQL, the devices that are listed as online are those that are shown as active.
pub proof fn law_online_is_active(activity: Activity, now: Timestamp)
    ensures
        in_state(Database::Postgres, OnlineState::Online, activity, now) <==> activity.active_at(
            now,
        ),
{
}

/// In SQLite, which is asked in whole seconds, the devices that are listed as online are those that
/// are shown as active where both times have the same fraction of a second. Otherwise a device is
/// listed as online for less than a second too long or too short.
pub proof fn law_online_in_whole_seconds(activity: Activity, seen: Timestamp, now: Timestamp)
    requires
        !activity.is_disabled,
        activity.last_seen_at == Some(seen),
    ensures
        ({
            let online = in_state(Database::Sqlite, OnlineState::Online, activity, now);
            let overdue = now.instant() - max_silence(activity.uplink_interval) - seen.instant();
            &&& now.nanos == seen.nanos ==> (online <==> activity.active_at(now))
            &&& online ==> overdue < 1_000_000_000
            &&& !online ==> overdue > -1_000_000_000
        }),
{
}

/// Both databases select by the same tags: those devices that have all of the requested tags. A key
/// with a quotation mark is left out, which SQLite would take for the end of the key.
pub proof fn law_databases_agree_on_tags(
    postgres: Engine,
    sqlite: Engine,
    tags: Seq<(Seq<char>, Seq<char>)>,
    row: DeviceRow,
)
    requires
        postgres.db is Postgres,
        sqlite.db is Sqlite,
        distinct_keys(tags),
        forall|i: int| 0 <= i < tags.len() ==> !(#[trigger] tags[i]).0.contains('\''),
    ensures
        selects(postgres, tag_conditions(postgres.db, tags), row) <==> as_map(tags).submap_of(
            row.tags,
        ),
        selects(sqlite, tag_conditions(sqlite.db, tags), row) <==> as_map(tags).submap_of(row.tags),
{
    let many = tag_conditions(sqlite.db, tags);
    let one = tag_conditions(postgres.db, tags);
    assert forall|i: int| 0 <= i < tags.len() implies as_map(tags).contains_key(
        (#[trigger] tags[i]).0,
    ) && as_map(tags)[tags[i].0] == tags[i].1 by {
        lemma_as_map(tags, i);
    }
    if selects(sqlite, many, row) {
        assert forall|i: int| 0 <= i < tags.len() implies #[trigger] has_tag(row, tags[i]) by {
            assert(admits(sqlite, many[i], row));
        }
    }
    if selects(postgres, one, row) && tags.len() > 0 {
        assert(admits(postgres, one[0], row));
    }
    if as_map(tags).submap_of(row.tags) {
        assert forall|i: int| 0 <= i < tags.len() implies #[trigger] has_tag(row, tags[i]) by {
            assert(as_map(tags).dom().contains(tags[i].0));
        }
    }
    if has_tags(row, tags) {
        assert forall|key: Seq<char>| #[trigger] as_map(tags).contains_key(key) implies
            row.tags.contains_key(key) && as_map(tags)[key] == row.tags[key] by {
            let i = choose|i: int| key_at(tags, key, i);
            assert(has_tag(row, tags[i]));
            assert(tags[i].0 == key);
        }
        assert(as_map(tags).submap_of(row.tags));
        assert forall|i: int| 0 <= i < many.len() implies admits(sqlite, #[trigger] many[i], row) by {
            assert(has_tag(row, tags[i]));
        }
    }
}

/// A request lists the devices that it counts, whatever the page and the order: a listed device is
/// among the counted ones, and the page is as long as its limit, or as the devices behind its offset
/// go.
pub proof fn law_list_counts_alike(
    engine: Engine,
    filters: Filters,
    count: CountQuery,
    list: ListQuery,
    table: Seq<DeviceRow>,
    result: Seq<DeviceRow>,
)
    requires
        conditions_view(count.conditions@) == conditions(engine.db, filters),
        conditions_view(list.conditions@) == conditions(engine.db, filters),
        list.limit >= 0,
        list.offset >= 0,
        is_listing(
            engine,
            conditions_view(list.conditions@),
            list.order@,
            list.limit as int,
            list.offset as int,
            table,
            result,
        ),
    ensures
        ({
            let counted = selected(engine, conditions_view(count.conditions@), table);
            &&& counted.len() == device_count(engine, filters, table)
            &&& result.len() == page_len(
                counted.len() as int,
                list.limit as int,
                list.offset as int,
            )
            &&& forall|i: int| 0 <= i < result.len() ==> counted.contains(#[trigger] result[i])
        }),
{
    lemma_page(
        result,
        selected(engine, conditions_view(list.conditions@), table),
        |a: DeviceRow, b: DeviceRow| ordered(engine, list.order@, a, b),
        list.limit as int,
        list.offset as int,
    );
}

/// The listed devices are in the order that the request asks for. The order by the time that the
/// devices were last seen goes by name where that time is the same.
pub proof fn law_listing_is_sorted(
    engine: Engine,
    all: Seq<ConditionView>,
    order_by: OrderBy,
    descending: bool,
    limit: int,
    offset: int,
    table: Seq<DeviceRow>,
    result: Seq<DeviceRow>,
    i: int,
    j: int,
)
    requires
        limit >= 0,
        offset >= 0,
        is_listing(
            engine,
            all,
            order_keys(engine.db, order_by, descending),
            limit,
            offset,
            table,
            result,
        ),
        0 <= i < j < result.len(),
    ensures
        ({
            let column = order_column(order_by);
            let (a, b) = (result[i], result[j]);
            let same_time = a.activity.last_seen_at is Some && b.activity.last_seen_at is Some
                && a.activity.last_seen_at->0.instant() == b.activity.last_seen_at->0.instant();
            &&& !is_null(column, a) && !is_null(column, b) ==> if descending {
                column_le(engine, column, b, a)
            } else {
                column_le(engine, column, a, b)
            }
            &&& order_by is LastSeenAt && same_time ==> (engine.text_le)(a.name, b.name)
        }),
{
    let keys = order_keys(engine.db, order_by, descending);
    lemma_page(
        result,
        selected(engine, all, table),
        |a: DeviceRow, b: DeviceRow| ordered(engine, keys, a, b),
        limit,
        offset,
    );
    let (a, b) = (result[i], result[j]);
    assert((|a: DeviceRow, b: DeviceRow| ordered(engine, keys, a, b))(a, b));
    assert(ordered(engine, keys, a, b));
    if order_by is LastSeenAt {
        assert(keys.drop_first()[0] == keys[1]);
        assert(key_le(engine, keys[0], b, a) ==> ordered(engine, keys.drop_first(), a, b));
    }
}

/// In the order by the time that the devices were last seen, those that were never seen count as
/// seen first of all, in both databases: they come first in ascending order, and last in descending
/// order.
pub proof fn law_never_seen_counts_as_first(
    engine: Engine,
    all: Seq<ConditionView>,
    descending: bool,
    limit: int,
    offset: int,
    table: Seq<DeviceRow>,
    result: Seq<DeviceRow>,
    i: int,
    j: int,
)
    requires
        limit >= 0,
        offset >= 0,
        is_listing(
            engine,
            all,
            order_keys(engine.db, OrderBy::LastSeenAt, descending),
            limit,
            offset,
            table,
            result,
        ),
        0 <= i < j < result.len(),
    ensures
        !descending && result[j].activity.last_seen_at is None
            ==> result[i].activity.last_seen_at is None,
        descending && result[i].activity.last_seen_at is None
            ==> result[j].activity.last_seen_at is None,
{
    let keys = order_keys(engine.db, OrderBy::LastSeenAt, descending);
    lemma_page(
        result,
        selected(engine, all, table),
        |a: DeviceRow, b: DeviceRow| ordered(engine, keys, a, b),
        limit,
        offset,
    );
    assert((|a: DeviceRow, b: DeviceRow| ordered(engine, keys, a, b))(result[i], result[j]));
    assert(key_le(engine, keys[0], result[i], result[j]));
}

/// A list that has room for all devices has the same devices in every order.
pub proof fn law_order_keeps_the_devices(
    engine: Engine,
    all: Seq<ConditionView>,
    keys: Seq<OrderKey>,
    other_keys: Seq<OrderKey>,
    limit: int,
    table: Seq<DeviceRow>,
    result: Seq<DeviceRow>,
    other: Seq<DeviceRow>,
)
    requires
        limit >= selected(engine, all, table).len(),
        is_listing(engine, all, keys, limit, 0, table, result),
        is_listing(engine, all, other_keys, limit, 0, table, other),
    ensures
        same_rows(result, other),
        same_rows(result, selected(engine, all, table)),
{
    lemma_page(
        result,
        selected(engine, all, table),
        |a: DeviceRow, b: DeviceRow| ordered(engine, keys, a, b),
        limit,
        0,
    );
    lemma_page(
        other,
        selected(engine, all, table),
        |a: DeviceRow, b: DeviceRow| ordered(engine, other_keys, a, b),
        limit,
        0,
    );
}

/// A request that asks for no application, no device profile, no search, no state and no tags
/// selects all devices of the tenant.
pub proof fn law_nothing_asked_selects_all(
    engine: Engine,
    filters: Filters,
    table: Seq<DeviceRow>,
)
    requires
        filters.application_id is None,
        filters.device_profile_id is None,
        filters.search is None,
        filters.online_state is All,
        filters.tags@.len() == 0,
    ensures
        selected(engine, conditions(engine.db, filters), table) == table.filter(
            |row: DeviceRow| row.tenant_id == filters.tenant_id,
        ),
{
    let all = conditions(engine.db, filters);
    assert(all =~= seq![ConditionView::Tenant(filters.tenant_id)]);
    assert forall|i: int| 0 <= i < table.len() implies selects(engine, all, #[trigger] table[i]) == (
    table[i].tenant_id == filters.tenant_id) by {
        if selects(engine, all, table[i]) {
            assert(admits(engine, all[0], table[i]));
        }
    }
    lemma_agree(
        table,
        |row: DeviceRow| selects(engine, all, row),
        |row: DeviceRow| row.tenant_id == filters.tenant_id,
    );
}

} // verus!
