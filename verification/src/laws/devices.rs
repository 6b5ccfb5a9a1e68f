//! Devices: which of them a request is about, in which order they are listed, and which are active.
use vstd::prelude::*;

use crate::alinkwise::device_query::{
    conditions, conditions_view, get_count, id_conditions, is_active, is_active_at, list,
    online_conditions, order_keys, search_conditions, tag_conditions, Activity, Condition, ConditionView, CountQuery,
    Database, Filters, ListQuery, OnlineState, OrderBy, TenantDeviceListItem,
};
use crate::alinkwise::device_rows::{
    admits, has_tag, has_tags, is_listing, ordered, selected, selects, DeviceRow, Engine,
};
use crate::rows::{is_ordering, lemma_agree, page, same_rows};
use crate::time::Timestamp;

verus! {

/// Nanoseconds since the start of 1970, of a time whose nanoseconds may go beyond its second.
pub open spec fn nanoseconds(t: Timestamp) -> int {
    if t.nanos < 1_000_000_000 {
        t.seconds * 1_000_000_000 + t.nanos
    } else {
        t.seconds * 1_000_000_000 + 999_999_999
    }
}

/// A time is its seconds and nanoseconds; a leap second is held at the last nanosecond before it.
pub proof fn law_instant(t: &Timestamp, r: i128)
    requires
        call_ensures(Timestamp::to_instant, (t,), r),
    ensures
        r == nanoseconds(*t),
{
}

/// A device is active exactly if it is enabled, was seen, and twice its silence is no longer than
/// three times the interval of its uplinks.
pub proof fn law_active_at(item: &TenantDeviceListItem, now: Timestamp, r: bool)
    requires
        call_ensures(is_active_at, (item, now), r),
    ensures
        r <==> !item.is_disabled && item.last_seen_at is Some && 2 * (nanoseconds(now)
            - nanoseconds(item.last_seen_at->0)) <= 3 * item.uplink_interval * 1_000_000_000,
{
}

/// A device that is active at some time is active at all times before that.
pub proof fn law_activity_wears_off(
    item: &TenantDeviceListItem,
    earlier: Timestamp,
    later: Timestamp,
    was: bool,
    is: bool,
)
    requires
        nanoseconds(earlier) <= nanoseconds(later),
        call_ensures(is_active_at, (item, earlier), was),
        call_ensures(is_active_at, (item, later), is),
    ensures
        is ==> was,
{
}

/// A device that is disabled or was never seen is not active; of any other device, whether it is
/// active goes by a time that the clock can say.
pub proof fn law_active(item: &TenantDeviceListItem, r: bool)
    requires
        call_ensures(is_active, (item,), r),
    ensures
        item.is_disabled || item.last_seen_at is None ==> !r,
        !item.is_disabled && item.last_seen_at is Some ==> exists|now: Timestamp|
            now.seconds >= 0 && now.nanos < 1_000_000_000 && r == (2 * (#[trigger] nanoseconds(now)
                - nanoseconds(item.last_seen_at->0)) <= 3 * item.uplink_interval * 1_000_000_000),
{
    let now = choose|now: Timestamp|
        now.is_clock_time() && r == #[trigger] item.activity().active_at(now);
    assert(nanoseconds(now) == now.instant());
}

/// Whether a device is in a state at the time that the clock of the database says. PostgreSQL
/// compares times, and SQLite whole seconds.
pub open spec fn has_state(engine: Engine, state: OnlineState, activity: Activity) -> bool {
    let silent_too_long = match (activity.last_seen_at, engine.db) {
        (Some(seen), Database::Postgres) => 2 * (nanoseconds(engine.now) - nanoseconds(seen))
            > 3 * activity.uplink_interval * 1_000_000_000,
        (Some(seen), Database::Sqlite) => 2 * (engine.now.seconds - seen.seconds) > 3
            * activity.uplink_interval,
        (None, _) => false,
    };
    let known = !activity.is_disabled && activity.last_seen_at is Some;
    &&& state is Disabled ==> activity.is_disabled
    &&& state is NeverSeen ==> !activity.is_disabled && activity.last_seen_at is None
    &&& state is Online ==> known && !silent_too_long
    &&& state is Offline ==> known && silent_too_long
}

/// Whether a text is in one of the names of a device: its own, that of its application, or that of
/// its device profile. PostgreSQL is asked to ignore the case.
pub open spec fn has_in_name(engine: Engine, row: DeviceRow, text: Seq<char>) -> bool {
    let pattern = "%"@ + text + "%"@;
    let ignore_case = engine.db is Postgres;
    ||| (engine.like)(row.name, pattern, ignore_case)
    ||| (engine.like)(row.application_name, pattern, ignore_case)
    ||| (engine.like)(row.device_profile_name, pattern, ignore_case)
}

/// Whether a device has the tag at `i`.
pub open spec fn has_tag_at(row: DeviceRow, tags: Seq<(Seq<char>, Seq<char>)>, i: int) -> bool {
    row.tags.contains_key(tags[i].0) && row.tags[tags[i].0] == tags[i].1
}

/// Whether a device is one that a request is about: it is of the tenant; of the application, of the
/// device profile and by the name that are asked for, each where it is; in the state that is asked
/// for; and it has all of the tags.
pub open spec fn is_asked_for(engine: Engine, filters: Filters, row: DeviceRow) -> bool {
    &&& row.tenant_id == filters.tenant_id
    &&& filters.application_id is None || filters.application_id == Some(row.application_id)
    &&& filters.device_profile_id is None || filters.device_profile_id == Some(
        row.device_profile_id,
    )
    &&& filters.search is None || has_in_name(engine, row, filters.search->0@)
    &&& has_state(engine, filters.online_state, row.activity)
    &&& forall|i: int| 0 <= i < filters.tags@.len() ==> #[trigger] has_tag_at(row, filters.tags@, i)
}

proof fn lemma_parts(engine: Engine, a: Seq<ConditionView>, b: Seq<ConditionView>, row: DeviceRow)
    ensures
        selects(engine, a + b, row) <==> selects(engine, a, row) && selects(engine, b, row),
{
    let all = a + b;
    if selects(engine, all, row) {
        assert forall|i: int| 0 <= i < a.len() implies admits(engine, #[trigger] a[i], row) by {
            assert(all[i] == a[i]);
        }
        assert forall|i: int| 0 <= i < b.len() implies admits(engine, #[trigger] b[i], row) by {
            assert(all[a.len() + i] == b[i]);
        }
    }
}

proof fn lemma_one(engine: Engine, condition: ConditionView, row: DeviceRow)
    ensures
        selects(engine, seq![condition], row) <==> admits(engine, condition, row),
{
    let all = seq![condition];
    if selects(engine, all, row) {
        assert(admits(engine, all[0], row));
    }
}

proof fn lemma_tags(engine: Engine, tags: Seq<(Seq<char>, Seq<char>)>, row: DeviceRow)
    ensures
        selects(engine, tag_conditions(engine.db, tags), row) <==> forall|i: int|
            0 <= i < tags.len() ==> #[trigger] has_tag_at(row, tags, i),
{
    let all = tag_conditions(engine.db, tags);
    assert(forall|i: int| #[trigger] has_tag_at(row, tags, i) == has_tag(row, tags[i]));
    if selects(engine, all, row) {
        assert forall|i: int| 0 <= i < tags.len() implies #[trigger] has_tag_at(row, tags, i) by {
            if engine.db is Postgres {
                assert(admits(engine, all[0], row));
                assert(has_tag(row, tags[i]));
            } else {
                assert(admits(engine, all[i], row));
            }
        }
    }
    if forall|i: int| 0 <= i < tags.len() ==> #[trigger] has_tag_at(row, tags, i) {
        assert forall|i: int| 0 <= i < tags.len() implies #[trigger] has_tag(row, tags[i]) by {
            assert(has_tag_at(row, tags, i));
        }
        assert(has_tags(row, tags));
        assert forall|i: int| 0 <= i < all.len() implies admits(engine, #[trigger] all[i], row) by {
            if engine.db is Sqlite {
                assert(has_tag(row, tags[i]));
            }
        }
    }
}

proof fn lemma_asked_for(engine: Engine, filters: Filters, row: DeviceRow)
    ensures
        selects(engine, conditions(engine.db, filters), row) <==> is_asked_for(
            engine,
            filters,
            row,
        ),
{
    let db = engine.db;
    let tenant = seq![ConditionView::Tenant(filters.tenant_id)];
    let application = id_conditions(
        filters.application_id,
        |id: u128| ConditionView::Application(id),
    );
    let profile = id_conditions(
        filters.device_profile_id,
        |id: u128| ConditionView::DeviceProfile(id),
    );
    let search = search_conditions(db, filters.search);
    let online = online_conditions(filters.online_state);
    let tags = tag_conditions(db, filters.tags@);
    lemma_parts(engine, tenant, application, row);
    lemma_parts(engine, tenant + application, profile, row);
    lemma_parts(engine, tenant + application + profile, search, row);
    lemma_parts(engine, tenant + application + profile + search, online, row);
    lemma_parts(engine, tenant + application + profile + search + online, tags, row);
    lemma_one(engine, ConditionView::Tenant(filters.tenant_id), row);
    if let Some(id) = filters.application_id {
        lemma_one(engine, ConditionView::Application(id), row);
    }
    if let Some(id) = filters.device_profile_id {
        lemma_one(engine, ConditionView::DeviceProfile(id), row);
    }
    if search.len() > 0 {
        assert(search =~= seq![search[0]]);
        lemma_one(engine, search[0], row);
    }
    if online.len() > 0 {
        assert(online =~= seq![online[0]]);
        lemma_one(engine, online[0], row);
    }
    lemma_tags(engine, filters.tags@, row);
}

/// A device is counted exactly if the request is about it.
pub proof fn law_counted_devices(
    engine: Engine,
    filters: &Filters,
    query: CountQuery,
    row: DeviceRow,
)
    requires
        call_ensures(get_count, (engine.db, filters), query),
    ensures
        selects(engine, conditions_view(query.conditions@), row) <==> is_asked_for(
            engine,
            *filters,
            row,
        ),
{
    lemma_asked_for(engine, *filters, row);
}

/// Whether a device may be listed before another in an order. Where the order is by the time that
/// the devices were last seen, those that were never seen count as seen first of all, and those that
/// were seen at the same time are ordered by name, from the first name to the last.
pub open spec fn may_precede(
    engine: Engine,
    order_by: OrderBy,
    descending: bool,
    a: DeviceRow,
    b: DeviceRow,
) -> bool {
    let (low, high) = if descending {
        (b, a)
    } else {
        (a, b)
    };
    match order_by {
        OrderBy::Name => (engine.text_le)(low.name, high.name),
        OrderBy::DevEui => low.dev_eui <= high.dev_eui,
        OrderBy::DeviceProfileName => (engine.text_le)(
            low.device_profile_name,
            high.device_profile_name,
        ),
        OrderBy::ApplicationName => (engine.text_le)(low.application_name, high.application_name),
        OrderBy::CreatedAt => low.created_at <= high.created_at,
        OrderBy::UpdatedAt => low.updated_at <= high.updated_at,
        OrderBy::LastSeenAt => match (low.activity.last_seen_at, high.activity.last_seen_at) {
            (None, None) => (engine.text_le)(a.name, b.name),
            (None, Some(_)) => true,
            (Some(_), None) => false,
            (Some(first), Some(last)) => nanoseconds(first) < nanoseconds(last) || nanoseconds(
                first,
            ) == nanoseconds(last) && (engine.text_le)(a.name, b.name),
        },
    }
}

proof fn lemma_order(
    engine: Engine,
    order_by: OrderBy,
    descending: bool,
    a: DeviceRow,
    b: DeviceRow,
)
    ensures
        ordered(engine, order_keys(engine.db, order_by, descending), a, b) <==> may_precede(
            engine,
            order_by,
            descending,
            a,
            b,
        ),
{
    let keys = order_keys(engine.db, order_by, descending);
    reveal_with_fuel(ordered, 3);
    if order_by is LastSeenAt {
        assert(keys.drop_first()[0] == keys[1]);
        assert(keys.drop_first().drop_first().len() == 0);
    } else {
        assert(keys.drop_first().len() == 0);
    }
}

/// Whether `all` are the devices of a table that a request is about, in the order that it asks for.
pub open spec fn are_all_asked_for(
    engine: Engine,
    filters: Filters,
    order_by: OrderBy,
    descending: bool,
    table: Seq<DeviceRow>,
    all: Seq<DeviceRow>,
) -> bool {
    &&& same_rows(all, table.filter(|row: DeviceRow| is_asked_for(engine, filters, row)))
    &&& forall|i: int, j: int|
        0 <= i < j < all.len() ==> may_precede(
            engine,
            order_by,
            descending,
            #[trigger] all[i],
            #[trigger] all[j],
        )
}

/// A page of devices is cut out of all the devices that the request is about, in the order that it
/// asks for: at most `limit` of them, behind the first `offset`.
pub proof fn law_listed_devices(
    engine: Engine,
    limit: i64,
    offset: i64,
    filters: &Filters,
    order_by: OrderBy,
    descending: bool,
    query: ListQuery,
    table: Seq<DeviceRow>,
    result: Seq<DeviceRow>,
)
    requires
        call_ensures(list, (engine.db, limit, offset, filters, order_by, descending), query),
        is_listing(
            engine,
            conditions_view(query.conditions@),
            query.order@,
            query.limit as int,
            query.offset as int,
            table,
            result,
        ),
        limit >= 0,
        offset >= 0,
    ensures
        exists|all: Seq<DeviceRow>| #[trigger]
            are_all_asked_for(engine, *filters, order_by, descending, table, all) && {
                let end = if all.len() - offset < limit {
                    all.len() as int
                } else {
                    offset + limit
                };
                result == (if offset <= all.len() {
                    all.subrange(offset as int, end)
                } else {
                    Seq::empty()
                })
            },
{
    let asked = conditions_view(query.conditions@);
    let before = |a: DeviceRow, b: DeviceRow| ordered(engine, query.order@, a, b);
    let all = choose|all: Seq<DeviceRow>| #[trigger]
        is_ordering(all, selected(engine, asked, table), before) && result == page(
            all,
            query.limit as int,
            query.offset as int,
        );
    assert forall|i: int| 0 <= i < table.len() implies selects(
        engine,
        asked,
        #[trigger] table[i],
    ) == is_asked_for(engine, *filters, table[i]) by {
        lemma_asked_for(engine, *filters, table[i]);
    }
    lemma_agree(
        table,
        |row: DeviceRow| selects(engine, asked, row),
        |row: DeviceRow| is_asked_for(engine, *filters, row),
    );
    assert forall|i: int, j: int| 0 <= i < j < all.len() implies may_precede(
        engine,
        order_by,
        descending,
        #[trigger] all[i],
        #[trigger] all[j],
    ) by {
        assert(before(all[i], all[j]));
        lemma_order(engine, order_by, descending, all[i], all[j]);
    }
    assert(are_all_asked_for(engine, *filters, order_by, descending, table, all));
    let end = if all.len() - offset < limit {
        all.len() as int
    } else {
        offset + limit
    };
    if offset <= all.len() {
        assert(result =~= all.subrange(offset as int, end));
    } else {
        assert(result =~= Seq::empty());
    }
}

/// A page of devices is the one that is asked for.
pub proof fn law_page_of_devices(
    db: Database,
    limit: i64,
    offset: i64,
    filters: &Filters,
    order_by: OrderBy,
    descending: bool,
    query: ListQuery,
)
    requires
        call_ensures(list, (db, limit, offset, filters, order_by, descending), query),
    ensures
        query.limit == limit,
        query.offset == offset,
{
}

/// The conditions that are written in SQL as they stand. Both on the silence of a device leave out
/// devices that are disabled or were never seen, and one holds where the other does not.
pub proof fn law_condition_sql(condition: &Condition, db: Database, r: Option<String>)
    requires
        call_ensures(Condition::sql, (condition, db), r),
    ensures
        r is Some <==> condition is SeenLately || condition is SilentTooLong || condition is Tag,
        condition is SeenLately && db is Postgres ==> r->0@
            == "device.is_disabled = false and device.last_seen_at is not null and (now() - (make_interval(secs => device_profile.uplink_interval) * 1.5)) <= device.last_seen_at"@,
        condition is SilentTooLong && db is Postgres ==> r->0@
            == "device.is_disabled = false and device.last_seen_at is not null and (now() - (make_interval(secs => device_profile.uplink_interval) * 1.5)) > device.last_seen_at"@,
        condition is SeenLately && db is Sqlite ==> r->0@
            == "device.is_disabled = false and device.last_seen_at is not null and (unixepoch('now') - unixepoch(device.last_seen_at)) <= (device_profile.uplink_interval * 1.5)"@,
        condition is SilentTooLong && db is Sqlite ==> r->0@
            == "device.is_disabled = false and device.last_seen_at is not null and (unixepoch('now') - unixepoch(device.last_seen_at)) > (device_profile.uplink_interval * 1.5)"@,
        condition matches Condition::Tag { key, .. } ==> r->0@ == "device.tags->>'"@ + key@
            + "' ="@,
{
}

} // verus!
