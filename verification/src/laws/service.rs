//! The service: what each call needs and does, and what it is answered.
use vstd::prelude::*;

use crate::alinkwise::api::{
    optional_uuid, shows_device, shows_device_sometime, to_device_uplink_history_item,
    to_tenant_device_list_item, to_tenant_device_list_item_at, Access, Alinkwise, Answer, Call,
    Flag, HistoryEvent, ListDeviceUplinkHistoryRequest, ListTenantDevicesRequest, Outcome,
    RequestError, TenantDevice, Work, SCAN_COUNT,
};
use crate::alinkwise::device_query::TenantDeviceListItem;
use crate::alinkwise::uplink_history::DeviceUplinkHistoryItem;
use crate::alinkwise::{setup, Cleanup, CleanupOutcome, CleanupStep};
use crate::eui64::Eui64;
use crate::laws::devices::nanoseconds;
use crate::time::Timestamp;
use crate::uuids::{uuid_parsed, uuid_text};

verus! {

/// The service keeps what decides whether a call is open to its caller.
pub proof fn law_validator<V>(validator: V, service: Alinkwise<V>, r: &V)
    requires
        call_ensures(Alinkwise::<V>::new, (validator,), service),
        call_ensures(Alinkwise::<V>::validator, (&service,), r),
    ensures
        *r == validator,
{
}

/// Whether `id` and `text` are the identifier that `s` reads as, and its text, where there is one.
pub open spec fn reads_as(s: &str, id: Option<Eui64>, text: String) -> bool {
    &&& call_ensures(Eui64::parse, (s,), id)
    &&& id matches Some(e) ==> call_ensures(Eui64::to_text, (&e,), text)
}

/// Whether a request with an identifier is turned down exactly if there is no identifier, and
/// otherwise becomes a call that needs `access`.
pub open spec fn needs(id: Option<Eui64>, access: Access, r: Result<Call, RequestError>) -> bool {
    &&& id is None <==> r is Err
    &&& r is Err ==> r->Err_0 is InvalidEui64
    &&& r is Ok ==> r->Ok_0 is Authorize && r->Ok_0->access == access
}

/// The frames of a gateway are cleared for those who may delete it, under the key of the gateway.
pub proof fn law_clear_gateway_frame_log<V>(
    service: &Alinkwise<V>,
    gateway_id: &str,
    id: Option<Eui64>,
    text: String,
    r: Result<Call, RequestError>,
)
    requires
        call_ensures(Alinkwise::<V>::clear_gateway_frame_log, (service, gateway_id), r),
        reads_as(gateway_id, id, text),
    ensures
        needs(id, (Access::Gateway { flag: Flag::Delete, gateway_id: id->0 }), r),
        r is Ok ==> (r->Ok_0->work matches Work::ClearFrameLog { key } && key@ == "gw:{"@ + text@
            + "}:stream:frame"@),
{
}

/// The frames of a device are cleared for those who may delete it, under the key of the device.
pub proof fn law_clear_device_frame_log<V>(
    service: &Alinkwise<V>,
    dev_eui: &str,
    id: Option<Eui64>,
    text: String,
    r: Result<Call, RequestError>,
)
    requires
        call_ensures(Alinkwise::<V>::clear_device_frame_log, (service, dev_eui), r),
        reads_as(dev_eui, id, text),
    ensures
        needs(id, (Access::Device { flag: Flag::Delete, dev_eui: id->0 }), r),
        r is Ok ==> (r->Ok_0->work matches Work::ClearFrameLog { key } && key@ == "device:{"@
            + text@ + "}:stream:frame"@),
{
}

/// The metrics of a device are cleared for those who may delete it, under all keys of its metrics.
pub proof fn law_clear_device_metrics<V>(
    service: &Alinkwise<V>,
    dev_eui: &str,
    id: Option<Eui64>,
    text: String,
    r: Result<Call, RequestError>,
)
    requires
        call_ensures(Alinkwise::<V>::clear_device_metrics, (service, dev_eui), r),
        reads_as(dev_eui, id, text),
    ensures
        needs(id, (Access::Device { flag: Flag::Delete, dev_eui: id->0 }), r),
        r is Ok ==> (r->Ok_0->work matches Work::ClearMetrics { pattern } && pattern@
            == "metrics:{device:"@ + text@ + "}*"@),
{
}

/// The events of a device are deleted for those who may delete it.
pub proof fn law_clear_device_uplink_history<V>(
    service: &Alinkwise<V>,
    dev_eui: &str,
    id: Option<Eui64>,
    text: String,
    r: Result<Call, RequestError>,
)
    requires
        call_ensures(Alinkwise::<V>::clear_device_uplink_history, (service, dev_eui), r),
        reads_as(dev_eui, id, text),
    ensures
        needs(id, (Access::Device { flag: Flag::Delete, dev_eui: id->0 }), r),
        r is Ok ==> (r->Ok_0->work matches Work::ClearHistory { dev_eui: d } && d@ == text@),
{
}

/// The events of a device are listed for those who may read it: the page, the kind, the search and
/// the port are those of the request, and a port that the request does not have is not asked for.
pub proof fn law_list_device_uplink_history<V>(
    service: &Alinkwise<V>,
    req: ListDeviceUplinkHistoryRequest,
    s: &str,
    id: Option<Eui64>,
    text: String,
    r: Result<Call, RequestError>,
)
    requires
        call_ensures(Alinkwise::<V>::list_device_uplink_history, (service, req), r),
        s@ == req.dev_eui@,
        reads_as(s, id, text),
    ensures
        needs(id, (Access::Device { flag: Flag::Read, dev_eui: id->0 }), r),
        r is Ok ==> {
            &&& r->Ok_0->work matches Work::ListHistory(listing)
            &&& listing.filters.dev_eui@ == text@
            &&& listing.filters.event_type@ == req.event_type@
            &&& listing.filters.search@ == req.search@
            &&& listing.filters.f_port is Some <==> req.has_f_port
            &&& listing.filters.f_port is Some ==> listing.filters.f_port->0 == req.f_port
            &&& listing.limit == req.limit
            &&& listing.offset == req.offset
        },
{
}

/// An empty text stands for no UUID, which is in order; any other text is a UUID or is turned down.
pub proof fn law_optional_uuid(value: &str, r: Result<Option<u128>, RequestError>)
    requires
        call_ensures(optional_uuid, (value,), r),
    ensures
        value@.len() == 0 ==> r is Ok && r->Ok_0 is None,
        value@.len() > 0 && uuid_parsed(value@) is Some ==> r is Ok && r->Ok_0 == uuid_parsed(
            value@,
        ),
        value@.len() > 0 && uuid_parsed(value@) is None ==> r is Err && r->Err_0 is InvalidUuid,
{
}

/// Whether an identifier is the one that a text asks for: none where the text is empty.
pub open spec fn is_asked_by(text: Seq<char>, id: Option<u128>) -> bool {
    &&& text.len() == 0 ==> id is None
    &&& text.len() > 0 ==> id is Some && id == uuid_parsed(text)
}

/// Whether a text asks for an identifier that it does not have.
pub open spec fn is_mistaken(text: Seq<char>) -> bool {
    text.len() > 0 && uuid_parsed(text) is None
}

/// The devices of a tenant are listed for those who may list its applications. Each thing that the
/// request asks for is asked for in the listing, and what it leaves empty is not. A request is turned
/// down exactly if one of its three identifiers is none; the tenant must be named.
pub proof fn law_list_tenant_devices<V>(
    service: &Alinkwise<V>,
    req: ListTenantDevicesRequest,
    r: Result<Call, RequestError>,
)
    requires
        call_ensures(Alinkwise::<V>::list_tenant_devices, (service, req), r),
    ensures
        r is Err <==> uuid_parsed(req.tenant_id@) is None || is_mistaken(req.application_id@)
            || is_mistaken(req.device_profile_id@),
        r is Err ==> r->Err_0 is InvalidUuid,
        r is Ok ==> {
            &&& r->Ok_0 is Authorize
            &&& r->Ok_0->access matches Access::Applications { flag, tenant_id }
            &&& flag is List
            &&& Some(tenant_id) == uuid_parsed(req.tenant_id@)
            &&& r->Ok_0->work matches Work::ListDevices(listing)
            &&& listing.filters.tenant_id == tenant_id
            &&& is_asked_by(req.application_id@, listing.filters.application_id)
            &&& is_asked_by(req.device_profile_id@, listing.filters.device_profile_id)
            &&& listing.filters.search is None <==> req.search@.len() == 0
            &&& listing.filters.search is Some ==> listing.filters.search->0@ == req.search@
            &&& listing.filters.tags@ == req.tags@
            &&& listing.limit == req.limit
            &&& listing.offset == req.offset
            &&& listing.order_by_desc == req.order_by_desc
            &&& listing.log_tenant_id@ == req.tenant_id@
            &&& listing.filters.online_state is All <==> req.online_state is All
            &&& listing.filters.online_state is Online <==> req.online_state is Online
            &&& listing.filters.online_state is Offline <==> req.online_state is Offline
            &&& listing.filters.online_state is NeverSeen <==> req.online_state is NeverSeen
            &&& listing.filters.online_state is Disabled <==> req.online_state is Disabled
            &&& listing.order_by is Name <==> req.order_by is Name
            &&& listing.order_by is DevEui <==> req.order_by is DevEui
            &&& listing.order_by is LastSeenAt <==> req.order_by is LastSeenAt
            &&& listing.order_by is DeviceProfileName <==> req.order_by is DeviceProfileName
            &&& listing.order_by is ApplicationName <==> req.order_by is ApplicationName
            &&& listing.order_by is CreatedAt <==> req.order_by is CreatedAt
            &&& listing.order_by is UpdatedAt <==> req.order_by is UpdatedAt
        },
{
}

/// Whether an event of an answer is an event of the history, in all that it has.
pub open spec fn is_same_event(item: DeviceUplinkHistoryItem, event: HistoryEvent) -> bool {
    &&& item.deduplication_id@ == event.deduplication_id@
    &&& item.event_type@ == event.event_type@
    &&& item.time@ == event.time@
    &&& item.dev_addr@ == event.dev_addr@
    &&& item.dr == event.dr
    &&& item.f_cnt@ == event.f_cnt@
    &&& item.f_port == event.f_port
    &&& item.confirmed == event.confirmed
    &&& item.data_hex@ == event.data_hex@
    &&& item.object_json@ == event.object_json@
    &&& item.rx_info_json@ == event.rx_info_json@
    &&& item.tx_info_json@ == event.tx_info_json@
    &&& item.tags_json@ == event.tags_json@
    &&& item.summary_json@ == event.summary_json@
}

/// An event is answered as the history has it.
pub proof fn law_answered_event(item: DeviceUplinkHistoryItem, r: HistoryEvent)
    requires
        call_ensures(to_device_uplink_history_item, (item,), r),
    ensures
        is_same_event(item, r),
{
}

/// Whether a device was last seen no longer ago than one and a half times its uplink interval.
pub open spec fn is_seen_lately(item: TenantDeviceListItem, now: Timestamp) -> bool {
    2 * (nanoseconds(now) - nanoseconds(item.last_seen_at->0)) <= 3 * item.uplink_interval
        * 1_000_000_000
}

/// Whether a device of an answer is a listed device, in all but whether it is active. Its status is
/// there exactly if its margin is known.
pub open spec fn is_same_device(item: TenantDeviceListItem, device: TenantDevice) -> bool {
    &&& forall|text: String|
        #![trigger text@]
        call_ensures(Eui64::to_text, (&item.dev_eui,), text) ==> device.dev_eui@ == text@
    &&& forall|text: String|
        #![trigger text@]
        call_ensures(Eui64::to_text, (&item.join_eui,), text) ==> device.join_eui@ == text@
    &&& device.name@ == item.name@
    &&& device.description@ == item.description@
    &&& device.application_id@ == uuid_text(item.application_id)
    &&& device.application_name@ == item.application_name@
    &&& device.device_profile_id@ == uuid_text(item.device_profile_id)
    &&& device.device_profile_name@ == item.device_profile_name@
    &&& device.created_at == item.created_at
    &&& device.updated_at == item.updated_at
    &&& device.last_seen_at == item.last_seen_at
    &&& device.device_status is Some <==> item.margin is Some
    &&& device.device_status matches Some(status) ==> {
        &&& Some(status.margin) == item.margin
        &&& status.external_power_source == item.external_power_source
        &&& status.battery_level == item.battery_level
    }
    &&& device.tags@ == item.tags@
    &&& device.is_disabled == item.is_disabled
    &&& device.class_enabled == item.class_enabled
    &&& device.is_active ==> !item.is_disabled && item.last_seen_at is Some
}

/// Whether a device of an answer is active exactly if the listed device, which is enabled and was seen,
/// was seen lately at some time that the clock can say.
pub open spec fn is_active_by_clock(item: TenantDeviceListItem, device: TenantDevice) -> bool {
    !item.is_disabled && item.last_seen_at is Some ==> exists|now: Timestamp|
        now.seconds >= 0 && now.nanos < 1_000_000_000 && device.is_active
            == #[trigger] is_seen_lately(item, now)
}

/// A device is answered as it is listed, with whether it is active at that time.
pub proof fn law_answered_device_at(item: TenantDeviceListItem, now: Timestamp, r: TenantDevice)
    requires
        call_ensures(to_tenant_device_list_item_at, (item, now), r),
    ensures
        is_same_device(item, r),
        r.is_active <==> !item.is_disabled && item.last_seen_at is Some && is_seen_lately(
            item,
            now,
        ),
{
}

/// A device is answered as it is listed. Unless it is disabled or was never seen, whether it is active
/// goes by a time that the clock can say.
pub proof fn law_answered_device(item: TenantDeviceListItem, r: TenantDevice)
    requires
        call_ensures(to_tenant_device_list_item, (item,), r),
    ensures
        is_same_device(item, r),
        is_active_by_clock(item, r),
{
    lemma_shown(item, r);
}

proof fn lemma_shown(item: TenantDeviceListItem, device: TenantDevice)
    requires
        shows_device_sometime(item, device),
    ensures
        is_same_device(item, device),
        is_active_by_clock(item, device),
{
    let now = choose|now: Timestamp|
        now.is_clock_time() && shows_device(item, now, device);
    assert(!item.is_disabled && item.last_seen_at is Some ==> device.is_active == is_seen_lately(
        item,
        now,
    ));
}

/// Whatever fails, a call that it is part of fails.
pub proof fn law_failed(call: Call, outcome: Outcome, r: Call)
    requires
        call_ensures(Call::advance, (call, outcome), r),
        outcome is Failed,
    ensures
        r is Fail,
{
}

/// A call that is granted starts with its work: it deletes the key, looks for keys from the start on,
/// deletes the events, or counts by the listing.
pub proof fn law_granted(call: Call, outcome: Outcome, r: Call)
    requires
        call_ensures(Call::advance, (call, outcome), r),
        call is Authorize,
        outcome is Granted,
    ensures
        call->work matches Work::ClearFrameLog { key } ==> r == (Call::DeleteKey { key }),
        call->work matches Work::ClearMetrics { pattern } ==> r == (Call::Scan {
            pattern,
            cursor: 0,
        }),
        call->work matches Work::ClearHistory { dev_eui } ==> r == (Call::DeleteHistory {
            dev_eui,
        }),
        call->work matches Work::ListDevices(listing) ==> r == Call::CountDevices(listing),
        call->work matches Work::ListHistory(listing) ==> r == Call::CountHistory(listing),
{
}

/// Once the key is deleted, the frames are cleared.
pub proof fn law_key_deleted(call: Call, outcome: Outcome, r: Call)
    requires
        call_ensures(Call::advance, (call, outcome), r),
        call is DeleteKey,
        outcome is Deleted,
    ensures
        r matches Call::Answer(answer) && answer is FrameLogCleared,
{
}

/// Whether a look for keys goes on from a cursor, or is over where the cursor is back at the start.
pub open spec fn goes_on(pattern: String, cursor: u64, next: Call) -> bool {
    &&& cursor == 0 ==> (next matches Call::Answer(answer) && answer is MetricsCleared)
    &&& cursor != 0 ==> (next matches Call::Scan { pattern: p, cursor: c } && p == pattern && c
        == cursor)
}

/// Keys that were found are deleted, all of them; where none were found, the look goes on. Each look
/// is at a hundred keys.
pub proof fn law_scanned(call: Call, outcome: Outcome, r: Call)
    requires
        call_ensures(Call::advance, (call, outcome), r),
        call is Scan,
        outcome is Scanned,
    ensures
        outcome->keys@.len() == 0 ==> goes_on(call->Scan_pattern, outcome->next_cursor, r),
        outcome->keys@.len() > 0 ==> {
            &&& r matches Call::DeleteScanned { keys, pattern, next_cursor }
            &&& keys == outcome->keys
            &&& pattern == call->Scan_pattern
            &&& next_cursor == outcome->next_cursor
        },
        SCAN_COUNT == 100,
{
}

/// Once the keys that were found are deleted, the look goes on.
pub proof fn law_scanned_keys_deleted(call: Call, outcome: Outcome, r: Call)
    requires
        call_ensures(Call::advance, (call, outcome), r),
        call is DeleteScanned,
        outcome is Deleted,
    ensures
        goes_on(call->DeleteScanned_pattern, call->next_cursor, r),
{
}

/// Once the events are deleted, the answer says how many, by the low 32 bits of their number.
pub proof fn law_history_deleted(call: Call, outcome: Outcome, r: Call)
    requires
        call_ensures(Call::advance, (call, outcome), r),
        call is DeleteHistory,
        outcome is HistoryDeleted,
    ensures
        r matches Call::Answer(answer) && (answer matches Answer::HistoryCleared { deleted_count }
            && deleted_count == outcome->deleted % 0x1_0000_0000),
{
    let deleted = outcome->deleted;
    assert(deleted as u32 == deleted % 0x1_0000_0000) by (bit_vector);
}

/// What was counted is listed, by the same listing.
pub proof fn law_counted(call: Call, outcome: Outcome, r: Call)
    requires
        call_ensures(Call::advance, (call, outcome), r),
        call is CountDevices || call is CountHistory,
        outcome is Counted,
    ensures
        call matches Call::CountDevices(listing) ==> r == (Call::ListDevices {
            listing,
            total: outcome->total,
        }),
        call matches Call::CountHistory(listing) ==> r == (Call::ListHistory {
            listing,
            total: outcome->total,
        }),
{
}

proof fn lemma_low_bits(total: i64)
    ensures
        total as u32 == (total as u64) % 0x1_0000_0000,
{
    assert(total as u32 == (total as u64) % 0x1_0000_0000) by (bit_vector);
}

/// The devices that were listed are answered, each in its place, with how many were counted, by the
/// low 32 bits of that number.
pub proof fn law_devices_listed(call: Call, outcome: Outcome, r: Call)
    requires
        call_ensures(Call::advance, (call, outcome), r),
        call is ListDevices,
        outcome is DevicesListed,
    ensures
        r matches Call::Answer(answer) && (answer matches Answer::Devices {
            total_count,
            result,
            log_tenant_id,
        } && {
            let items = outcome->DevicesListed_items@;
            &&& total_count == (call->ListDevices_total as u64) % 0x1_0000_0000
            &&& log_tenant_id == call->ListDevices_listing.log_tenant_id
            &&& result@.len() == items.len()
            &&& forall|i: int|
                0 <= i < items.len() ==> is_same_device(#[trigger] items[i], result@[i])
                    && is_active_by_clock(items[i], result@[i])
        }),
{
    lemma_low_bits(call->ListDevices_total);
    let items = outcome->DevicesListed_items@;
    let result = r->Answer_0->Devices_result@;
    assert forall|i: int| 0 <= i < items.len() implies is_same_device(
        #[trigger] items[i],
        result[i],
    ) && is_active_by_clock(items[i], result[i]) by {
        lemma_shown(items[i], result[i]);
    }
}

/// The events that were listed are answered, each in its place, with how many were counted, by the
/// low 32 bits of that number.
pub proof fn law_history_listed(call: Call, outcome: Outcome, r: Call)
    requires
        call_ensures(Call::advance, (call, outcome), r),
        call is ListHistory,
        outcome is HistoryListed,
    ensures
        r matches Call::Answer(answer) && (answer matches Answer::History { total_count, result } && {
            let items = outcome->HistoryListed_items@;
            &&& total_count == (call->ListHistory_total as u64) % 0x1_0000_0000
            &&& result@.len() == items.len()
            &&& forall|i: int|
                0 <= i < items.len() ==> is_same_event(#[trigger] items[i], result@[i])
        }),
{
    lemma_low_bits(call->ListHistory_total);
}

/// Old events are cleaned up once a day, unless they are kept for no days, which keeps them all.
pub proof fn law_setup(retention_days: u32, r: Option<Cleanup>)
    requires
        call_ensures(setup, (retention_days,), r),
    ensures
        r is None <==> retention_days == 0,
        r matches Some(cleanup) ==> cleanup.retention_days == retention_days
            && cleanup.period_seconds == 24 * 60 * 60,
{
}

/// A clean-up starts at once. After a wait, whatever came of it, old events are deleted; after a
/// deletion, whatever came of it, the clean-up waits for the next period.
pub proof fn law_cleanup(
    cleanup: &Cleanup,
    step: CleanupStep,
    outcome: CleanupOutcome,
    first: CleanupStep,
    next: CleanupStep,
)
    requires
        call_ensures(Cleanup::first, (cleanup,), first),
        call_ensures(Cleanup::next, (cleanup, step, outcome), next),
    ensures
        first matches CleanupStep::Wait { seconds } && seconds == 0,
        step is Wait ==> (next matches CleanupStep::Delete { retention_days } && retention_days
            == cleanup.retention_days),
        step is Delete ==> (next matches CleanupStep::Wait { seconds } && seconds
            == cleanup.period_seconds),
{
}

} // verus!
