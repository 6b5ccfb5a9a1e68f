//! The event history of a device, which the integration database keeps in one table per kind of
//! event.
use vstd::prelude::*;

use crate::rows::clamped;
use crate::text::{join2, join3, trim, trimmed};

verus! {

/// The tables of the event history.
pub const HISTORY_TABLES: [&'static str; 8] = [
    "event_up",
    "event_join",
    "event_ack",
    "event_tx_ack",
    "event_log",
    "event_status",
    "event_location",
    "event_integration",
];

/// All events of the device `$1`, of every table, with the same columns.
pub const HISTORY_UNION_SQL: &'static str = r#"
        select
            deduplication_id::text as deduplication_id,
            'up'::text as event_type,
            time as time,
            dev_addr::text as dev_addr,
            dr::int as dr,
            f_cnt::text as f_cnt,
            f_port::int as f_port,
            confirmed as confirmed,
            encode(data, 'hex') as data_hex,
            object::text as object_json,
            rx_info::text as rx_info_json,
            tx_info::text as tx_info_json,
            tags::text as tags_json,
            jsonb_build_object(
                'devAddr', dev_addr::text,
                'fCnt', f_cnt,
                'fPort', f_port,
                'dr', dr,
                'confirmed', confirmed,
                'dataHex', encode(data, 'hex')
            )::text as summary_json,
            concat_ws(' ', dev_addr::text, f_cnt::text, f_port::text, dr::text, encode(data, 'hex'), object::text, rx_info::text) as search_text
        from event_up
        where dev_eui = $1

        union all

        select
            deduplication_id::text,
            'join'::text,
            time,
            dev_addr::text,
            0,
            '',
            -1,
            false,
            '',
            '{}'::jsonb::text,
            '[]'::jsonb::text,
            '{}'::jsonb::text,
            tags::text,
            jsonb_build_object('devAddr', dev_addr::text)::text,
            concat_ws(' ', dev_addr::text, tags::text)
        from event_join
        where dev_eui = $1

        union all

        select
            queue_item_id::text,
            'ack'::text,
            time,
            '',
            0,
            f_cnt_down::text,
            -1,
            acknowledged,
            '',
            '{}'::jsonb::text,
            '[]'::jsonb::text,
            '{}'::jsonb::text,
            tags::text,
            jsonb_build_object('queueItemId', queue_item_id::text, 'deduplicationId', deduplication_id::text, 'acknowledged', acknowledged, 'fCntDown', f_cnt_down)::text,
            concat_ws(' ', queue_item_id::text, deduplication_id::text, acknowledged::text, f_cnt_down::text, tags::text)
        from event_ack
        where dev_eui = $1

        union all

        select
            queue_item_id::text,
            'txack'::text,
            time,
            '',
            0,
            f_cnt_down::text,
            -1,
            false,
            '',
            '{}'::jsonb::text,
            '[]'::jsonb::text,
            tx_info::text,
            tags::text,
            jsonb_build_object('queueItemId', queue_item_id::text, 'downlinkId', downlink_id, 'fCntDown', f_cnt_down, 'gatewayId', gateway_id::text)::text,
            concat_ws(' ', queue_item_id::text, downlink_id::text, f_cnt_down::text, gateway_id::text, tx_info::text, tags::text)
        from event_tx_ack
        where dev_eui = $1

        union all

        select
            id::text,
            'log'::text,
            time,
            '',
            0,
            '',
            -1,
            false,
            '',
            context::text,
            '[]'::jsonb::text,
            '{}'::jsonb::text,
            tags::text,
            jsonb_build_object('level', level, 'code', code, 'description', description)::text,
            concat_ws(' ', id::text, level, code, description, context::text, tags::text)
        from event_log
        where dev_eui = $1

        union all

        select
            deduplication_id::text,
            'status'::text,
            time,
            '',
            0,
            '',
            -1,
            false,
            '',
            jsonb_build_object(
                'margin', margin,
                'externalPowerSource', external_power_source,
                'batteryLevelUnavailable', battery_level_unavailable,
                'batteryLevel', battery_level
            )::text,
            '[]'::jsonb::text,
            '{}'::jsonb::text,
            tags::text,
            jsonb_build_object('margin', margin, 'batteryLevel', battery_level, 'externalPowerSource', external_power_source)::text,
            concat_ws(' ', margin::text, external_power_source::text, battery_level_unavailable::text, battery_level::text, tags::text)
        from event_status
        where dev_eui = $1

        union all

        select
            deduplication_id::text,
            'location'::text,
            time,
            '',
            0,
            '',
            -1,
            false,
            '',
            jsonb_build_object(
                'latitude', latitude,
                'longitude', longitude,
                'altitude', altitude,
                'source', source,
                'accuracy', accuracy
            )::text,
            '[]'::jsonb::text,
            '{}'::jsonb::text,
            tags::text,
            jsonb_build_object('latitude', latitude, 'longitude', longitude, 'altitude', altitude, 'source', source, 'accuracy', accuracy)::text,
            concat_ws(' ', latitude::text, longitude::text, altitude::text, source, accuracy::text, tags::text)
        from event_location
        where dev_eui = $1

        union all

        select
            deduplication_id::text,
            'integration'::text,
            time,
            '',
            0,
            '',
            -1,
            false,
            '',
            object::text,
            '[]'::jsonb::text,
            '{}'::jsonb::text,
            tags::text,
            jsonb_build_object(
                'integrationName', integration_name,
                'eventType', event_type,
                'object', object
            )::text,
            concat_ws(' ', integration_name, event_type, object::text, tags::text)
        from event_integration
        where dev_eui = $1
    "#;

/// What the statement that counts events selects.
pub const COUNT_SQL: &'static str = r#"
        select count(*)::bigint
        from ("#;

/// What the statement that lists events selects.
pub const LIST_SQL: &'static str = r#"
        select
            deduplication_id,
            event_type,
            to_char(time at time zone 'UTC', 'YYYY-MM-DD"T"HH24:MI:SS.MS"Z"'),
            dev_addr,
            dr,
            f_cnt,
            f_port,
            confirmed,
            data_hex,
            object_json,
            rx_info_json,
            tx_info_json,
            tags_json,
            summary_json
        from ("#;

/// Which of the events of a device are selected.
pub const FILTER_SQL: &'static str = r#") as event
        where (
            $2 = ''
            or event_type ilike $2
            or search_text ilike $2
        )
          and ($3 < 0 or f_port = $3)
          and ($4 = '' or event_type = $4)
        "#;

/// The order of the listed events, and the page that is listed.
pub const PAGE_SQL: &'static str = r#"order by time desc
        limit $5 offset $6
        "#;

/// The events that a caller asks for.
#[derive(Debug, Clone)]
pub struct Filters {
    pub dev_eui: String,
    /// The kind of the events; empty for all kinds.
    pub event_type: String,
    /// A text that the events contain.
    pub search: String,
    pub f_port: Option<u32>,
}

/// The parameters `$1` to `$4` of the statements that select events.
#[derive(Debug, Clone)]
pub struct EventFilter {
    pub dev_eui: String,
    pub search: String,
    pub f_port: i32,
    pub event_type: String,
}

/// The parameters `$1` to `$4` as mathematical values.
#[verifier::ext_equal]
pub struct EventFilterView {
    pub dev_eui: Seq<char>,
    pub search: Seq<char>,
    pub f_port: i32,
    pub event_type: Seq<char>,
}

impl View for EventFilter {
    type V = EventFilterView;

    open spec fn view(&self) -> EventFilterView {
        EventFilterView {
            dev_eui: self.dev_eui@,
            search: self.search@,
            f_port: self.f_port,
            event_type: self.event_type@,
        }
    }
}

/// A statement that counts events, with its parameters.
#[derive(Debug, Clone)]
pub struct CountQuery {
    pub sql: String,
    pub filter: EventFilter,
}

/// A statement that lists events, with its parameters.
#[derive(Debug, Clone)]
pub struct ListQuery {
    pub sql: String,
    pub filter: EventFilter,
    /// The parameter `$5`.
    pub limit: i64,
    /// The parameter `$6`.
    pub offset: i64,
}

/// An event as the list statement returns it.
#[derive(Debug, Clone)]
pub struct HistoryRow {
    pub deduplication_id: String,
    pub event_type: String,
    pub time: String,
    pub dev_addr: String,
    pub dr: i32,
    pub f_cnt: String,
    pub f_port: i32,
    pub confirmed: bool,
    pub data_hex: String,
    pub object_json: String,
    pub rx_info_json: String,
    pub tx_info_json: String,
    pub tags_json: String,
    pub summary_json: String,
}

/// An event of a device.
#[derive(Debug, Clone)]
pub struct DeviceUplinkHistoryItem {
    pub deduplication_id: String,
    pub event_type: String,
    pub time: String,
    pub dev_addr: String,
    pub dr: u32,
    pub f_cnt: String,
    pub f_port: u32,
    pub confirmed: bool,
    pub data_hex: String,
    pub object_json: String,
    pub rx_info_json: String,
    pub tx_info_json: String,
    pub tags_json: String,
    pub summary_json: String,
}

/// The pattern that finds `search` anywhere in a text; empty where there is nothing to find.
pub open spec fn pattern_of(search: Seq<char>) -> Seq<char> {
    if trimmed(search).len() == 0 {
        Seq::empty()
    } else {
        "%"@ + trimmed(search) + "%"@
    }
}

/// The parameter that selects a port: below zero where every port is selected. A port above
/// `i32::MAX` wraps around, and selects every port.
pub open spec fn port_parameter(f_port: Option<u32>) -> i32 {
    match f_port {
        Some(port) => port as i32,
        None => -1i32,
    }
}

/// The parameters that select the events a caller asks for.
pub open spec fn filter_parameters(filters: Filters) -> EventFilterView {
    EventFilterView {
        dev_eui: filters.dev_eui@,
        search: pattern_of(filters.search@),
        f_port: port_parameter(filters.f_port),
        event_type: filters.event_type@,
    }
}

/// The statement that counts events.
pub open spec fn count_sql() -> Seq<char> {
    COUNT_SQL@ + HISTORY_UNION_SQL@ + FILTER_SQL@
}

/// The statement that lists events.
pub open spec fn list_sql() -> Seq<char> {
    LIST_SQL@ + HISTORY_UNION_SQL@ + FILTER_SQL@ + PAGE_SQL@
}

/// All events of a device, of every table, with the same columns.
pub fn history_union_sql() -> (r: &'static str)
    ensures
        r@ == HISTORY_UNION_SQL@,
{
    HISTORY_UNION_SQL
}

/// The pattern that finds `search` anywhere in a text.
pub fn search_pattern(search: &str) -> (r: String)
    ensures
        r@ == pattern_of(search@),
{
    let search = trim(search);
    if search.is_empty() {
        String::new()
    } else {
        join3("%", search, "%")
    }
}

/// The parameters that select the events a caller asks for.
fn event_filter(filters: &Filters) -> (r: EventFilter)
    ensures
        r@ == filter_parameters(*filters),
{
    EventFilter {
        dev_eui: filters.dev_eui.clone(),
        search: search_pattern(&filters.search),
        f_port: match filters.f_port {
            Some(port) => #[verifier::truncate] (port as i32),
            None => -1,
        },
        event_type: filters.event_type.clone(),
    }
}

/// How to count the events that `filters` selects.
pub fn get_count(filters: &Filters) -> (r: CountQuery)
    ensures
        r.sql@ == count_sql(),
        r.filter@ == filter_parameters(*filters),
{
    CountQuery {
        sql: join3(COUNT_SQL, history_union_sql(), FILTER_SQL),
        filter: event_filter(filters),
    }
}

/// How to list a page of the events that `filters` selects, the latest first. A page has at
/// least one event and at most a hundred.
pub fn list(limit: i64, offset: i64, filters: &Filters) -> (r: ListQuery)
    ensures
        r.sql@ == list_sql(),
        r.filter@ == filter_parameters(*filters),
        r.limit == clamped(limit as int, 1, 100),
        r.offset == (if offset < 0 { 0 } else { offset }),
{
    let mut sql = join3(LIST_SQL, history_union_sql(), FILTER_SQL);
    sql.append(PAGE_SQL);
    ListQuery {
        sql,
        filter: event_filter(filters),
        limit: if limit < 1 {
            1
        } else if limit > 100 {
            100
        } else {
            limit
        },
        offset: if offset < 0 {
            0
        } else {
            offset
        },
    }
}

/// `n`, or 0 where it is below zero.
fn not_negative(n: i32) -> (r: u32)
    ensures
        r == (if n < 0 { 0 } else { n as int }),
{
    if n < 0 {
        0
    } else {
        n as u32
    }
}

/// The event that a row stands for. An event without a data-rate or a port has 0 for it.
pub fn row_to_item(row: HistoryRow) -> (r: DeviceUplinkHistoryItem)
    ensures
        r.deduplication_id == row.deduplication_id,
        r.event_type == row.event_type,
        r.time == row.time,
        r.dev_addr == row.dev_addr,
        r.dr == (if row.dr < 0 { 0 } else { row.dr as int }),
        r.f_cnt == row.f_cnt,
        r.f_port == (if row.f_port < 0 { 0 } else { row.f_port as int }),
        r.confirmed == row.confirmed,
        r.data_hex == row.data_hex,
        r.object_json == row.object_json,
        r.rx_info_json == row.rx_info_json,
        r.tx_info_json == row.tx_info_json,
        r.tags_json == row.tags_json,
        r.summary_json == row.summary_json,
{
    DeviceUplinkHistoryItem {
        deduplication_id: row.deduplication_id,
        event_type: row.event_type,
        time: row.time,
        dev_addr: row.dev_addr,
        dr: not_negative(row.dr),
        f_cnt: row.f_cnt,
        f_port: not_negative(row.f_port),
        confirmed: row.confirmed,
        data_hex: row.data_hex,
        object_json: row.object_json,
        rx_info_json: row.rx_info_json,
        tx_info_json: row.tx_info_json,
        tags_json: row.tags_json,
        summary_json: row.summary_json,
    }
}

/// Which events a deletion removes.
#[derive(Debug, Clone)]
pub enum Deletion {
    /// All events of a device.
    Device { dev_eui: String },
    /// The events that are more than so many days old.
    Expired { retention_days: i32 },
}

/// Which events a deletion removes, as a mathematical value.
pub enum DeletionView {
    Device { dev_eui: Seq<char> },
    Expired { retention_days: i32 },
}

impl View for Deletion {
    type V = DeletionView;

    open spec fn view(&self) -> DeletionView {
        match self {
            Deletion::Device { dev_eui } => DeletionView::Device { dev_eui: dev_eui@ },
            Deletion::Expired { retention_days } => DeletionView::Expired {
                retention_days: *retention_days,
            },
        }
    }
}

impl DeletionView {
    /// The statement that deletes from one table. Its parameter `$1` is what the deletion holds.
    pub open spec fn sql(self, table: Seq<char>) -> Seq<char> {
        match self {
            DeletionView::Device { .. } => "delete from "@ + table
                + " where lower(dev_eui::text) = lower($1)"@,
            DeletionView::Expired { .. } => "delete from "@ + table
                + " where time < now() - make_interval(days => $1)"@,
        }
    }

    /// What was attempted where that statement fails.
    pub open spec fn context(self, table: Seq<char>) -> Seq<char> {
        match self {
            DeletionView::Device { .. } => "Delete device history from "@ + table,
            DeletionView::Expired { .. } => "Delete expired history from "@ + table,
        }
    }
}

/// A deletion under way: it goes through the tables one by one.
#[derive(Debug)]
pub struct HistoryDeletion {
    deletion: Deletion,
    next: usize,
    deleted: u64,
}

/// A statement that deletes from one table.
#[derive(Debug, Clone)]
pub struct DeleteStatement {
    pub sql: String,
    /// What was attempted where the statement fails.
    pub context: String,
}

/// What a deletion under way does next.
#[derive(Debug, Clone)]
pub enum DeletionStep {
    /// The statement is executed; the number of rows that it removed comes next.
    Execute(DeleteStatement),
    /// All is done; so many rows are gone.
    Finished { deleted: u64 },
}

/// A deletion under way as a mathematical value.
pub struct HistoryDeletionView {
    pub deletion: DeletionView,
    /// How many of the tables are behind it.
    pub next: int,
    /// How many rows are gone.
    pub deleted: int,
}

impl View for HistoryDeletion {
    type V = HistoryDeletionView;

    closed spec fn view(&self) -> HistoryDeletionView {
        HistoryDeletionView {
            deletion: self.deletion@,
            next: self.next as int,
            deleted: self.deleted as int,
        }
    }
}

impl HistoryDeletionView {
    /// All tables are behind it.
    pub open spec fn finished(self) -> bool {
        self.next == 8
    }

    /// What it has become once the next statement removed `rows` rows.
    pub open spec fn executed(self, rows: int) -> HistoryDeletionView {
        HistoryDeletionView { next: self.next + 1, deleted: self.deleted + rows, ..self }
    }
}

/// Deletes all events of a device.
pub fn delete_for_device(dev_eui: &str) -> (r: HistoryDeletion)
    ensures
        r@ == (HistoryDeletionView {
            deletion: DeletionView::Device { dev_eui: dev_eui@ },
            next: 0,
            deleted: 0,
        }),
{
    HistoryDeletion {
        deletion: Deletion::Device { dev_eui: dev_eui.to_string() },
        next: 0,
        deleted: 0,
    }
}

/// Deletes the events that are more than `retention_days` days old; none where that is 0. A
/// number of days above `i32::MAX` wraps around.
pub fn delete_expired(retention_days: u32) -> (r: HistoryDeletion)
    ensures
        r@ == (HistoryDeletionView {
            deletion: DeletionView::Expired { retention_days: retention_days as i32 },
            next: if retention_days == 0 { 8 } else { 0 },
            deleted: 0,
        }),
{
    HistoryDeletion {
        deletion: Deletion::Expired {
            retention_days: #[verifier::truncate] (retention_days as i32),
        },
        next: if retention_days == 0 {
            8
        } else {
            0
        },
        deleted: 0,
    }
}

impl HistoryDeletion {
    /// No more tables are behind it than there are.
    #[verifier::type_invariant]
    spec fn wf(self) -> bool {
        self.next <= 8
    }

    /// Which events are removed.
    pub fn deletion(&self) -> (r: &Deletion)
        ensures
            r@ == self@.deletion,
    {
        &self.deletion
    }

    /// What comes next.
    pub fn step(&self) -> (r: DeletionStep)
        ensures
            match r {
                DeletionStep::Execute(statement) => {
                    let table = HISTORY_TABLES@[self@.next]@;
                    &&& !self@.finished()
                    &&& statement.sql@ == self@.deletion.sql(table)
                    &&& statement.context@ == self@.deletion.context(table)
                },
                DeletionStep::Finished { deleted } => self@.finished() && deleted == self@.deleted,
            },
    {
        proof {
            use_type_invariant(self);
        }
        if self.next == 8 {
            return DeletionStep::Finished { deleted: self.deleted };
        }
        let tables = HISTORY_TABLES;
        let table = tables[self.next];
        match &self.deletion {
            Deletion::Device { .. } => DeletionStep::Execute(
                DeleteStatement {
                    sql: join3("delete from ", table, " where lower(dev_eui::text) = lower($1)"),
                    context: join2("Delete device history from ", table),
                },
            ),
            Deletion::Expired { .. } => DeletionStep::Execute(
                DeleteStatement {
                    sql: join3(
                        "delete from ",
                        table,
                        " where time < now() - make_interval(days => $1)",
                    ),
                    context: join2("Delete expired history from ", table),
                },
            ),
        }
    }

    /// Takes note that the statement removed `rows` rows.
    pub fn executed(&mut self, rows: u64)
        requires
            !old(self)@.finished(),
            old(self)@.deleted + rows <= u64::MAX,
        ensures
            final(self)@ == old(self)@.executed(rows as int),
    {
        proof {
            use_type_invariant(&*self);
        }
        self.deleted = self.deleted + rows;
        self.next = self.next + 1;
    }
}

/// Events are listed by the statement that they are counted by: both select from the same events,
/// by the same conditions and the same parameters. Only the columns differ, and that the list is
/// ordered and cut into pages.
pub proof fn law_list_counts_alike(filters: Filters, count: CountQuery, list: ListQuery)
    requires
        count.sql@ == count_sql() && count.filter@ == filter_parameters(filters),
        list.sql@ == list_sql() && list.filter@ == filter_parameters(filters),
    ensures
        count.filter@ == list.filter@,
        exists|selection: Seq<char>|
            count.sql@ == #[trigger] (COUNT_SQL@ + selection) && list.sql@ == LIST_SQL@ + selection
                + PAGE_SQL@,
{
    let selection = HISTORY_UNION_SQL@ + FILTER_SQL@;
    assert(count.sql@ =~= COUNT_SQL@ + selection);
    assert(list.sql@ =~= LIST_SQL@ + selection + PAGE_SQL@);
}

/// A request for a port selects that port, and one for no port in particular selects them all. A
/// port beyond `i32::MAX` selects them all, too.
pub proof fn law_port_is_selected(f_port: Option<u32>)
    ensures
        match f_port {
            Some(port) if port <= i32::MAX => port_parameter(f_port) == port,
            _ => port_parameter(f_port) < 0,
        },
{
    if let Some(port) = f_port {
        assert(port > 0x7fff_ffff ==> (port as i32) < 0) by (bit_vector);
        assert(port <= 0x7fff_ffff ==> (port as i32) == port) by (bit_vector);
    }
}

/// The sum of numbers of rows.
pub open spec fn row_sum(rows: Seq<u64>) -> int
    decreases rows.len(),
{
    if rows.len() == 0 {
        0
    } else {
        row_sum(rows.drop_last()) + rows.last()
    }
}

/// What a deletion has become once its next statements removed `rows` rows, one after the other.
pub open spec fn after_rows(start: HistoryDeletionView, rows: Seq<u64>) -> HistoryDeletionView
    decreases rows.len(),
{
    if rows.len() == 0 {
        start
    } else {
        after_rows(start, rows.drop_last()).executed(rows.last() as int)
    }
}

/// A deletion goes through all of the tables, each of them once and in their order, and ends with
/// the number of all rows that it removed.
pub proof fn law_deletion_visits_every_table(start: HistoryDeletionView, rows: Seq<u64>)
    requires
        start.next == 0,
        start.deleted == 0,
        rows.len() <= HISTORY_TABLES@.len(),
    ensures
        ({
            let now = after_rows(start, rows);
            &&& now.deletion == start.deletion
            &&& now.next == rows.len()
            &&& now.deleted == row_sum(rows)
            &&& now.finished() <==> rows.len() == HISTORY_TABLES@.len()
        }),
    decreases rows.len(),
{
    if rows.len() > 0 {
        law_deletion_visits_every_table(start, rows.drop_last());
    }
}

} // verus!
