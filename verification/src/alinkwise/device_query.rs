//! The devices of a tenant: which of them a request selects, in which order they are listed, and
//! which of them are active.
use bigdecimal::BigDecimal;

use vstd::prelude::*;

use crate::eui64::Eui64;
use crate::tags::{copy_pairs, pairs_view, Tags};
use crate::text::join3;
use crate::time::{now, Timestamp};

verus! {

/// `bigdecimal::BigDecimal`. It is carried along, and nothing is known of what is inside.
#[verifier::external_type_specification]
#[verifier::external_body]
pub struct ExBigDecimal(bigdecimal::BigDecimal);

/// The database that holds the devices.
#[derive(Clone, Copy, Debug, PartialEq, Eq, Structural)]
pub enum Database {
    Postgres,
    Sqlite,
}

/// Devices by their activity.
#[derive(Clone, Copy, Debug, PartialEq, Eq, Structural)]
pub enum OnlineState {
    All,
    Online,
    Offline,
    NeverSeen,
    Disabled,
}

/// What the devices are listed by.
#[derive(Clone, Copy, Debug, PartialEq, Eq, Structural)]
pub enum OrderBy {
    Name,
    DevEui,
    LastSeenAt,
    DeviceProfileName,
    ApplicationName,
    CreatedAt,
    UpdatedAt,
}

/// The devices that a request selects. Identifiers of tenants, applications and device profiles
/// are the 128-bit numbers of their UUIDs.
#[derive(Clone, Debug)]
pub struct Filters {
    pub tenant_id: u128,
    pub application_id: Option<u128>,
    pub device_profile_id: Option<u128>,
    pub search: Option<String>,
    pub online_state: OnlineState,
    /// Tags that the devices have.
    pub tags: Tags,
}

/// The class that a device has enabled.
#[derive(Clone, Copy, Debug, PartialEq, Eq, Structural)]
pub enum DeviceClass {
    A,
    B,
    C,
}

/// A device of a tenant, as it is listed.
#[derive(Debug)]
pub struct TenantDeviceListItem {
    pub dev_eui: Eui64,
    pub name: String,
    pub description: String,
    pub application_id: u128,
    pub application_name: String,
    pub device_profile_id: u128,
    pub device_profile_name: String,
    pub created_at: Timestamp,
    pub updated_at: Timestamp,
    pub last_seen_at: Option<Timestamp>,
    pub margin: Option<i32>,
    pub external_power_source: bool,
    pub battery_level: Option<BigDecimal>,
    pub tags: Tags,
    pub join_eui: Eui64,
    pub is_disabled: bool,
    pub class_enabled: DeviceClass,
    /// How many seconds pass between two uplinks of the device.
    pub uplink_interval: i32,
}

/// What makes a device active or not.
pub struct Activity {
    pub is_disabled: bool,
    pub last_seen_at: Option<Timestamp>,
    pub uplink_interval: i32,
}

impl TenantDeviceListItem {
    /// What makes the device active or not.
    pub open spec fn activity(self) -> Activity {
        Activity {
            is_disabled: self.is_disabled,
            last_seen_at: self.last_seen_at,
            uplink_interval: self.uplink_interval,
        }
    }
}

/// The longest silence, in nanoseconds, of a device that is not offline: one and a half times its
/// uplink interval.
pub open spec fn max_silence(uplink_interval: i32) -> int {
    uplink_interval * 1_500_000_000
}

impl Activity {
    /// Whether the device is active at `now`: it is enabled, and was seen no longer ago than it
    /// may stay silent.
    pub open spec fn active_at(self, now: Timestamp) -> bool {
        &&& !self.is_disabled
        &&& self.last_seen_at matches Some(seen)
        &&& now.instant() - max_silence(self.uplink_interval) <= seen.instant()
    }
}

/// Whether the device is active at `now`.
pub fn is_active_at(item: &TenantDeviceListItem, now: Timestamp) -> (r: bool)
    ensures
        r == item.activity().active_at(now),
{
    if item.is_disabled {
        return false;
    }
    match item.last_seen_at {
        Some(seen) => {
            let max_silence: i128 = item.uplink_interval as i128 * 1_500_000_000;
            now.to_instant() - max_silence <= seen.to_instant()
        },
        None => false,
    }
}

/// Whether the device is active at this moment.
pub fn is_active(item: &TenantDeviceListItem) -> (r: bool)
    ensures
        exists|now: Timestamp|
            now.is_clock_time() && r == #[trigger] item.activity().active_at(now),
        item.is_disabled || item.last_seen_at is None ==> !r,
{
    let now = now();
    is_active_at(item, now)
}

/// A condition that the listed devices meet. A query joins each device with its application and
/// its device profile.
#[derive(Clone, Debug)]
pub enum Condition {
    /// The application belongs to the tenant.
    Tenant(u128),
    Application(u128),
    DeviceProfile(u128),
    /// The name of the device, of its application or of its device profile is like the pattern.
    NameLike { pattern: String, ignore_case: bool },
    Disabled,
    /// The device is enabled and was never seen.
    NeverSeen,
    /// The device is enabled, and was seen no longer ago than it may stay silent.
    SeenLately,
    /// The device is enabled, and was seen longer ago than it may stay silent.
    SilentTooLong,
    /// The device has all of these tags.
    Tags(Vec<(String, String)>),
    /// The device has this tag.
    Tag { key: String, value: String },
}

/// A condition as a mathematical value.
pub enum ConditionView {
    Tenant(u128),
    Application(u128),
    DeviceProfile(u128),
    NameLike { pattern: Seq<char>, ignore_case: bool },
    Disabled,
    NeverSeen,
    SeenLately,
    SilentTooLong,
    Tags(Seq<(Seq<char>, Seq<char>)>),
    Tag { key: Seq<char>, value: Seq<char> },
}

impl View for Condition {
    type V = ConditionView;

    open spec fn view(&self) -> ConditionView {
        match self {
            Condition::Tenant(id) => ConditionView::Tenant(*id),
            Condition::Application(id) => ConditionView::Application(*id),
            Condition::DeviceProfile(id) => ConditionView::DeviceProfile(*id),
            Condition::NameLike { pattern, ignore_case } => ConditionView::NameLike {
                pattern: pattern@,
                ignore_case: *ignore_case,
            },
            Condition::Disabled => ConditionView::Disabled,
            Condition::NeverSeen => ConditionView::NeverSeen,
            Condition::SeenLately => ConditionView::SeenLately,
            Condition::SilentTooLong => ConditionView::SilentTooLong,
            Condition::Tags(tags) => ConditionView::Tags(pairs_view(tags@)),
            Condition::Tag { key, value } => ConditionView::Tag { key: key@, value: value@ },
        }
    }
}

/// Conditions as mathematical values.
pub open spec fn conditions_view(conditions: Seq<Condition>) -> Seq<ConditionView> {
    conditions.map_values(|c: Condition| c@)
}

/// The condition that an identifier matches, where one is asked for.
pub open spec fn id_conditions(
    id: Option<u128>,
    condition: spec_fn(u128) -> ConditionView,
) -> Seq<ConditionView> {
    match id {
        Some(id) => seq![condition(id)],
        None => Seq::empty(),
    }
}

/// The condition that a name matches, where a search is asked for. PostgreSQL is asked to ignore
/// the case.
pub open spec fn search_conditions(db: Database, search: Option<String>) -> Seq<ConditionView> {
    match search {
        Some(search) => seq![
            ConditionView::NameLike {
                pattern: "%"@ + search@ + "%"@,
                ignore_case: db is Postgres,
            },
        ],
        None => Seq::empty(),
    }
}

/// The condition on the activity of a device.
pub open spec fn online_conditions(state: OnlineState) -> Seq<ConditionView> {
    match state {
        OnlineState::All => Seq::empty(),
        OnlineState::Disabled => seq![ConditionView::Disabled],
        OnlineState::NeverSeen => seq![ConditionView::NeverSeen],
        OnlineState::Online => seq![ConditionView::SeenLately],
        OnlineState::Offline => seq![ConditionView::SilentTooLong],
    }
}

/// The conditions on the tags of a device: one condition for all tags in PostgreSQL, one for each
/// tag in SQLite.
pub open spec fn tag_conditions(db: Database, tags: Seq<(Seq<char>, Seq<char>)>) -> Seq<
    ConditionView,
> {
    match db {
        Database::Postgres => if tags.len() == 0 {
            Seq::empty()
        } else {
            seq![ConditionView::Tags(tags)]
        },
        Database::Sqlite => Seq::new(
            tags.len(),
            |i: int| ConditionView::Tag { key: tags[i].0, value: tags[i].1 },
        ),
    }
}

/// The conditions that the devices a request selects meet.
pub open spec fn conditions(db: Database, filters: Filters) -> Seq<ConditionView> {
    seq![ConditionView::Tenant(filters.tenant_id)]
        + id_conditions(filters.application_id, |id: u128| ConditionView::Application(id))
        + id_conditions(filters.device_profile_id, |id: u128| ConditionView::DeviceProfile(id))
        + search_conditions(db, filters.search)
        + online_conditions(filters.online_state)
        + tag_conditions(db, filters.tags@)
}

/// Adds the conditions on tags.
fn push_tag_conditions(db: Database, tags: &Vec<(String, String)>, out: &mut Vec<Condition>)
    ensures
        conditions_view(final(out)@) == conditions_view(old(out)@) + tag_conditions(
            db,
            pairs_view(tags@),
        ),
{
    match db {
        Database::Postgres => {
            if tags.len() > 0 {
                out.push(Condition::Tags(copy_pairs(tags)));
            }
            assert(conditions_view(out@) =~= conditions_view(old(out)@) + tag_conditions(
                db,
                pairs_view(tags@),
            ));
        },
        Database::Sqlite => {
            let ghost all = tag_conditions(db, pairs_view(tags@));
            let mut i: usize = 0;
            while i < tags.len()
                invariant
                    db is Sqlite,
                    i <= tags@.len(),
                    all == tag_conditions(db, pairs_view(tags@)),
                    conditions_view(out@) =~= conditions_view(old(out)@) + all.take(i as int),
                decreases tags@.len() - i,
            {
                let ghost before = out@;
                out.push(Condition::Tag { key: tags[i].0.clone(), value: tags[i].1.clone() });
                assert(conditions_view(out@) =~= conditions_view(before).push(out@.last()@));
                assert(all.take(i + 1) =~= all.take(i as int).push(all[i as int]));
                i += 1;
            }
            assert(all.take(i as int) =~= all);
        },
    }
}

/// The conditions that the devices a request selects meet.
fn query_conditions(db: Database, filters: &Filters) -> (r: Vec<Condition>)
    ensures
        conditions_view(r@) == conditions(db, *filters),
{
    let mut r: Vec<Condition> = Vec::new();
    r.push(Condition::Tenant(filters.tenant_id));
    if let Some(id) = filters.application_id {
        r.push(Condition::Application(id));
    }
    if let Some(id) = filters.device_profile_id {
        r.push(Condition::DeviceProfile(id));
    }
    if let Some(search) = &filters.search {
        r.push(
            Condition::NameLike {
                pattern: join3("%", search, "%"),
                ignore_case: match db {
                    Database::Postgres => true,
                    Database::Sqlite => false,
                },
            },
        );
    }
    match filters.online_state {
        OnlineState::All => {},
        OnlineState::Disabled => r.push(Condition::Disabled),
        OnlineState::NeverSeen => r.push(Condition::NeverSeen),
        OnlineState::Online => r.push(Condition::SeenLately),
        OnlineState::Offline => r.push(Condition::SilentTooLong),
    }
    assert(conditions_view(r@) =~= seq![ConditionView::Tenant(filters.tenant_id)]
        + id_conditions(filters.application_id, |id: u128| ConditionView::Application(id))
        + id_conditions(filters.device_profile_id, |id: u128| ConditionView::DeviceProfile(id))
        + search_conditions(db, filters.search)
        + online_conditions(filters.online_state));
    push_tag_conditions(db, filters.tags.pairs(), &mut r);
    r
}

/// A query that counts devices.
#[derive(Clone, Debug)]
pub struct CountQuery {
    pub conditions: Vec<Condition>,
}

/// A column that devices are listed by.
#[derive(Clone, Copy, Debug, PartialEq, Eq, Structural)]
pub enum Column {
    DeviceName,
    DevEui,
    LastSeenAt,
    DeviceProfileName,
    ApplicationName,
    CreatedAt,
    UpdatedAt,
}

/// Where the devices without a value stand in the order.
#[derive(Clone, Copy, Debug, PartialEq, Eq, Structural)]
pub enum Nulls {
    First,
    Last,
    /// Wherever the database puts them.
    Default,
}

/// One key of the order.
#[derive(Clone, Copy, Debug, PartialEq, Eq, Structural)]
pub struct OrderKey {
    pub column: Column,
    pub descending: bool,
    pub nulls: Nulls,
}

/// A query that lists devices.
#[derive(Clone, Debug)]
pub struct ListQuery {
    pub conditions: Vec<Condition>,
    /// The keys of the order, the most significant first.
    pub order: Vec<OrderKey>,
    pub limit: i64,
    pub offset: i64,
}

/// The column that the devices are listed by.
pub open spec fn order_column(order_by: OrderBy) -> Column {
    match order_by {
        OrderBy::Name => Column::DeviceName,
        OrderBy::DevEui => Column::DevEui,
        OrderBy::LastSeenAt => Column::LastSeenAt,
        OrderBy::DeviceProfileName => Column::DeviceProfileName,
        OrderBy::ApplicationName => Column::ApplicationName,
        OrderBy::CreatedAt => Column::CreatedAt,
        OrderBy::UpdatedAt => Column::UpdatedAt,
    }
}

/// The keys of the order. Devices by the time they were last seen are in the end ordered by name;
/// in PostgreSQL, those that were never seen count as seen first of all.
pub open spec fn order_keys(db: Database, order_by: OrderBy, descending: bool) -> Seq<OrderKey> {
    if order_by is LastSeenAt {
        let nulls = match db {
            Database::Postgres => if descending {
                Nulls::Last
            } else {
                Nulls::First
            },
            Database::Sqlite => Nulls::Default,
        };
        seq![
            OrderKey { column: Column::LastSeenAt, descending, nulls },
            OrderKey { column: Column::DeviceName, descending: false, nulls: Nulls::Default },
        ]
    } else {
        seq![OrderKey { column: order_column(order_by), descending, nulls: Nulls::Default }]
    }
}

/// The keys of the order.
fn query_order(db: Database, order_by: OrderBy, descending: bool) -> (r: Vec<OrderKey>)
    ensures
        r@ == order_keys(db, order_by, descending),
{
    let (column, nulls) = match order_by {
        OrderBy::Name => (Column::DeviceName, Nulls::Default),
        OrderBy::DevEui => (Column::DevEui, Nulls::Default),
        OrderBy::LastSeenAt => match (db, descending) {
            (Database::Postgres, true) => (Column::LastSeenAt, Nulls::Last),
            (Database::Postgres, false) => (Column::LastSeenAt, Nulls::First),
            (Database::Sqlite, _) => (Column::LastSeenAt, Nulls::Default),
        },
        OrderBy::DeviceProfileName => (Column::DeviceProfileName, Nulls::Default),
        OrderBy::ApplicationName => (Column::ApplicationName, Nulls::Default),
        OrderBy::CreatedAt => (Column::CreatedAt, Nulls::Default),
        OrderBy::UpdatedAt => (Column::UpdatedAt, Nulls::Default),
    };
    let mut r: Vec<OrderKey> = Vec::new();
    r.push(OrderKey { column, descending, nulls });
    if let OrderBy::LastSeenAt = order_by {
        r.push(
            OrderKey { column: Column::DeviceName, descending: false, nulls: Nulls::Default },
        );
    }
    assert(r@ =~= order_keys(db, order_by, descending));
    r
}

/// How to count the devices that `filters` selects.
pub fn get_count(db: Database, filters: &Filters) -> (r: CountQuery)
    ensures
        conditions_view(r.conditions@) == conditions(db, *filters),
{
    CountQuery { conditions: query_conditions(db, filters) }
}

/// How to list a page of the devices that `filters` selects.
pub fn list(
    db: Database,
    limit: i64,
    offset: i64,
    filters: &Filters,
    order_by: OrderBy,
    order_by_desc: bool,
) -> (r: ListQuery)
    ensures
        conditions_view(r.conditions@) == conditions(db, *filters),
        r.order@ == order_keys(db, order_by, order_by_desc),
        r.limit == limit,
        r.offset == offset,
{
    ListQuery {
        conditions: query_conditions(db, filters),
        order: query_order(db, order_by, order_by_desc),
        limit,
        offset,
    }
}

/// The condition for devices that were seen lately, for PostgreSQL.
pub const SEEN_LATELY_POSTGRES: &'static str = "device.is_disabled = false and device.last_seen_at is not null and (now() - (make_interval(secs => device_profile.uplink_interval) * 1.5)) <= device.last_seen_at";

/// The condition for devices that have been silent for too long, for PostgreSQL.
pub const SILENT_TOO_LONG_POSTGRES: &'static str = "device.is_disabled = false and device.last_seen_at is not null and (now() - (make_interval(secs => device_profile.uplink_interval) * 1.5)) > device.last_seen_at";

/// The condition for devices that were seen lately, for SQLite.
pub const SEEN_LATELY_SQLITE: &'static str = "device.is_disabled = false and device.last_seen_at is not null and (unixepoch('now') - unixepoch(device.last_seen_at)) <= (device_profile.uplink_interval * 1.5)";

/// The condition for devices that have been silent for too long, for SQLite.
pub const SILENT_TOO_LONG_SQLITE: &'static str = "device.is_disabled = false and device.last_seen_at is not null and (unixepoch('now') - unixepoch(device.last_seen_at)) > (device_profile.uplink_interval * 1.5)";

/// The SQL of a condition, where it is written in SQL as it stands. The value of a tag is bound
/// behind the SQL for its key.
pub open spec fn fixed_sql(db: Database, condition: ConditionView) -> Option<Seq<char>> {
    match (condition, db) {
        (ConditionView::SeenLately, Database::Postgres) => Some(SEEN_LATELY_POSTGRES@),
        (ConditionView::SeenLately, Database::Sqlite) => Some(SEEN_LATELY_SQLITE@),
        (ConditionView::SilentTooLong, Database::Postgres) => Some(SILENT_TOO_LONG_POSTGRES@),
        (ConditionView::SilentTooLong, Database::Sqlite) => Some(SILENT_TOO_LONG_SQLITE@),
        (ConditionView::Tag { key, .. }, _) => Some("device.tags->>'"@ + key + "' ="@),
        _ => None,
    }
}

impl Condition {
    /// The SQL of the condition, where it is written in SQL as it stands. The value of a tag is
    /// bound behind the SQL for its key.
    pub fn sql(&self, db: Database) -> (r: Option<String>)
        ensures
            match r {
                Some(sql) => fixed_sql(db, self@) == Some(sql@),
                None => fixed_sql(db, self@) is None,
            },
    {
        match (self, db) {
            (Condition::SeenLately, Database::Postgres) => Some(SEEN_LATELY_POSTGRES.to_string()),
            (Condition::SeenLately, Database::Sqlite) => Some(SEEN_LATELY_SQLITE.to_string()),
            (Condition::SilentTooLong, Database::Postgres) => Some(
                SILENT_TOO_LONG_POSTGRES.to_string(),
            ),
            (Condition::SilentTooLong, Database::Sqlite) => Some(
                SILENT_TOO_LONG_SQLITE.to_string(),
            ),
            (Condition::Tag { key, .. }, _) => Some(join3("device.tags->>'", key, "' =")),
            _ => None,
        }
    }
}

} // verus!
