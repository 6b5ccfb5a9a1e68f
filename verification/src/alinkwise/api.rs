//! The service: what each call asks for, whom it is open to, and what it is answered.
//!
//! A call is a state machine. Its state says what is to be done next outside the library, and the
//! outcome of that leads to the next state.
use bigdecimal::BigDecimal;

use vstd::prelude::*;

use crate::alinkwise::device_query::{
    conditions, is_active_at, DeviceClass, Filters as DeviceFilters, OnlineState, OrderBy,
    TenantDeviceListItem,
};
use crate::alinkwise::device_rows::{device_count, DeviceRow, Engine};
use crate::alinkwise::uplink_history::{DeviceUplinkHistoryItem, Filters as HistoryFilters};
use crate::eui64::{eui64_parsed, eui64_text, law_eui64_round_trip, Eui64};
use crate::rows::page_len;
use crate::tags::Tags;
use crate::text::{join3, lemma_hex_digits};
use crate::time::{now, Timestamp};
use crate::uuids::{parse_uuid, uuid_parsed, uuid_text, uuid_to_text};

verus! {

/// The service. It holds what decides whether a call is open to its caller.
pub struct Alinkwise<V> {
    validator: V,
}

/// What a caller wants to do.
#[derive(Clone, Copy, Debug, PartialEq, Eq, Structural)]
pub enum Flag {
    Delete,
    List,
    Read,
}

/// What a caller needs access to.
#[derive(Clone, Copy, Debug, PartialEq, Eq, Structural)]
pub enum Access {
    Gateway { flag: Flag, gateway_id: Eui64 },
    Device { flag: Flag, dev_eui: Eui64 },
    Applications { flag: Flag, tenant_id: u128 },
}

/// Why a request is turned down before anything is done.
#[derive(Debug)]
pub enum RequestError {
    InvalidEui64,
    InvalidUuid(uuid::Error),
}

/// The activity that a request asks for.
#[derive(Clone, Copy, Debug, PartialEq, Eq, Structural)]
pub enum RequestOnlineState {
    All,
    Online,
    Offline,
    NeverSeen,
    Disabled,
}

/// The order that a request asks for.
#[derive(Clone, Copy, Debug, PartialEq, Eq, Structural)]
pub enum RequestOrderBy {
    Name,
    DevEui,
    LastSeenAt,
    DeviceProfileName,
    ApplicationName,
    CreatedAt,
    UpdatedAt,
}

impl vstd::std_specs::convert::FromSpecImpl<RequestOnlineState> for OnlineState {
    open spec fn obeys_from_spec() -> bool {
        true
    }

    open spec fn from_spec(value: RequestOnlineState) -> OnlineState {
        match value {
            RequestOnlineState::All => OnlineState::All,
            RequestOnlineState::Online => OnlineState::Online,
            RequestOnlineState::Offline => OnlineState::Offline,
            RequestOnlineState::NeverSeen => OnlineState::NeverSeen,
            RequestOnlineState::Disabled => OnlineState::Disabled,
        }
    }
}

impl From<RequestOnlineState> for OnlineState {
    fn from(value: RequestOnlineState) -> (r: OnlineState) {
        match value {
            RequestOnlineState::All => OnlineState::All,
            RequestOnlineState::Online => OnlineState::Online,
            RequestOnlineState::Offline => OnlineState::Offline,
            RequestOnlineState::NeverSeen => OnlineState::NeverSeen,
            RequestOnlineState::Disabled => OnlineState::Disabled,
        }
    }
}

impl vstd::std_specs::convert::FromSpecImpl<RequestOrderBy> for OrderBy {
    open spec fn obeys_from_spec() -> bool {
        true
    }

    open spec fn from_spec(value: RequestOrderBy) -> OrderBy {
        match value {
            RequestOrderBy::Name => OrderBy::Name,
            RequestOrderBy::DevEui => OrderBy::DevEui,
            RequestOrderBy::LastSeenAt => OrderBy::LastSeenAt,
            RequestOrderBy::DeviceProfileName => OrderBy::DeviceProfileName,
            RequestOrderBy::ApplicationName => OrderBy::ApplicationName,
            RequestOrderBy::CreatedAt => OrderBy::CreatedAt,
            RequestOrderBy::UpdatedAt => OrderBy::UpdatedAt,
        }
    }
}

impl From<RequestOrderBy> for OrderBy {
    fn from(value: RequestOrderBy) -> (r: OrderBy) {
        match value {
            RequestOrderBy::Name => OrderBy::Name,
            RequestOrderBy::DevEui => OrderBy::DevEui,
            RequestOrderBy::LastSeenAt => OrderBy::LastSeenAt,
            RequestOrderBy::DeviceProfileName => OrderBy::DeviceProfileName,
            RequestOrderBy::ApplicationName => OrderBy::ApplicationName,
            RequestOrderBy::CreatedAt => OrderBy::CreatedAt,
            RequestOrderBy::UpdatedAt => OrderBy::UpdatedAt,
        }
    }
}

/// A request to list devices of a tenant. An empty text asks for nothing.
#[derive(Debug)]
pub struct ListTenantDevicesRequest {
    pub tenant_id: String,
    pub application_id: String,
    pub device_profile_id: String,
    pub search: String,
    pub online_state: RequestOnlineState,
    pub tags: Tags,
    pub limit: u32,
    pub offset: u32,
    pub order_by: RequestOrderBy,
    pub order_by_desc: bool,
}

/// A request to list events of a device.
#[derive(Debug)]
pub struct ListDeviceUplinkHistoryRequest {
    pub dev_eui: String,
    pub event_type: String,
    pub search: String,
    pub has_f_port: bool,
    pub f_port: u32,
    pub limit: u32,
    pub offset: u32,
}

/// A page of devices to list.
#[derive(Debug)]
pub struct DeviceListing {
    pub filters: DeviceFilters,
    pub limit: i64,
    pub offset: i64,
    pub order_by: OrderBy,
    pub order_by_desc: bool,
    /// The tenant, as the request names it; the log shows it.
    pub log_tenant_id: String,
}

/// A page of events to list.
#[derive(Debug)]
pub struct HistoryListing {
    pub filters: HistoryFilters,
    pub limit: i64,
    pub offset: i64,
}

/// How many keys the store is asked to look at in one go.
pub const SCAN_COUNT: u32 = 100;

/// What a call does once it is found open to its caller.
#[derive(Debug)]
pub enum Work {
    ClearFrameLog { key: String },
    ClearMetrics { pattern: String },
    ClearHistory { dev_eui: String },
    ListDevices(DeviceListing),
    ListHistory(HistoryListing),
}

/// The state of a device as it last reported it.
#[derive(Debug)]
pub struct DeviceStatus {
    pub margin: i32,
    pub external_power_source: bool,
    /// The level of the battery, where it is known.
    pub battery_level: Option<BigDecimal>,
}

/// A device in the answer to a call.
#[derive(Debug)]
pub struct TenantDevice {
    pub dev_eui: String,
    pub name: String,
    pub description: String,
    pub application_id: String,
    pub application_name: String,
    pub device_profile_id: String,
    pub device_profile_name: String,
    pub created_at: Timestamp,
    pub updated_at: Timestamp,
    pub last_seen_at: Option<Timestamp>,
    pub device_status: Option<DeviceStatus>,
    pub tags: Tags,
    pub join_eui: String,
    pub is_disabled: bool,
    pub is_active: bool,
    pub class_enabled: DeviceClass,
}

/// An event in the answer to a call.
#[derive(Debug)]
pub struct HistoryEvent {
    pub deduplication_id: String,
    pub event_type: String,
    pub time: String,
    pub dev_addr: String,
    pub dr: u32,
    pub f_cnt: String,
    pub f_port: u32,
    pub confirmed: bool,
    pub data_hex: String,
    pub object_json: String,
    pub rx_info_json: String,
    pub tx_info_json: String,
    pub tags_json: String,
    pub summary_json: String,
}

/// The answer to a call.
#[derive(Debug)]
pub enum Answer {
    FrameLogCleared,
    MetricsCleared,
    HistoryCleared { deleted_count: u32 },
    Devices { total_count: u32, result: Vec<TenantDevice>, log_tenant_id: String },
    History { total_count: u32, result: Vec<HistoryEvent> },
}

/// A call: what is to be done next.
#[derive(Debug)]
pub enum Call {
    /// Find out whether the call is open to its caller.
    Authorize { access: Access, work: Work },
    /// Delete a key of the store.
    DeleteKey { key: String },
    /// Look for keys of the store that match the pattern, from the cursor on.
    Scan { pattern: String, cursor: u64 },
    /// Delete the keys that a look found.
    DeleteScanned { keys: Vec<String>, pattern: String, next_cursor: u64 },
    /// Delete all events of a device.
    DeleteHistory { dev_eui: String },
    CountDevices(DeviceListing),
    ListDevices { listing: DeviceListing, total: i64 },
    CountHistory(HistoryListing),
    ListHistory { listing: HistoryListing, total: i64 },
    /// Answer the call.
    Answer(Answer),
    /// Answer the call with the failure that came back.
    Fail,
}

/// What came back of what was to be done.
#[derive(Debug)]
pub enum Outcome {
    /// The call is open to its caller.
    Granted,
    /// The call is not open to its caller, or what was to be done failed.
    Failed,
    Deleted,
    Scanned { next_cursor: u64, keys: Vec<String> },
    HistoryDeleted { deleted: u64 },
    Counted { total: i64 },
    DevicesListed { items: Vec<TenantDeviceListItem> },
    HistoryListed { items: Vec<DeviceUplinkHistoryItem> },
}

/// The key of the store that holds the frames of a gateway.
pub open spec fn gateway_frame_key(gateway_id: Eui64) -> Seq<char> {
    "gw:{"@ + eui64_text(gateway_id.value as nat) + "}:stream:frame"@
}

/// The key of the store that holds the frames of a device.
pub open spec fn device_frame_key(dev_eui: Eui64) -> Seq<char> {
    "device:{"@ + eui64_text(dev_eui.value as nat) + "}:stream:frame"@
}

/// The keys of the store that hold the metrics of a device.
pub open spec fn device_metrics_pattern(dev_eui: Eui64) -> Seq<char> {
    "metrics:{device:"@ + eui64_text(dev_eui.value as nat) + "}*"@
}

/// The UUID that a text stands for, where it is not empty: `Some(None)` for an empty text, and
/// `None` for one that does not stand for a UUID.
pub open spec fn optional_uuid_parsed(value: Seq<char>) -> Option<Option<u128>> {
    if value.len() == 0 {
        Some(None)
    } else {
        match uuid_parsed(value) {
            Some(id) => Some(Some(id)),
            None => None,
        }
    }
}

/// Whether a request to list devices is well formed.
pub open spec fn devices_request_valid(req: ListTenantDevicesRequest) -> bool {
    &&& uuid_parsed(req.tenant_id@) is Some
    &&& optional_uuid_parsed(req.application_id@) is Some
    &&& optional_uuid_parsed(req.device_profile_id@) is Some
}

/// Whether `listing` is what a well-formed request asks for.
pub open spec fn lists_devices(req: ListTenantDevicesRequest, listing: DeviceListing) -> bool {
    &&& Some(listing.filters.tenant_id) == uuid_parsed(req.tenant_id@)
    &&& Some(listing.filters.application_id) == optional_uuid_parsed(req.application_id@)
    &&& Some(listing.filters.device_profile_id) == optional_uuid_parsed(req.device_profile_id@)
    &&& listing.filters.search == (if req.search@.len() == 0 {
        None
    } else {
        Some(req.search)
    })
    &&& listing.filters.online_state == <OnlineState as vstd::std_specs::convert::FromSpec<
        RequestOnlineState,
    >>::from_spec(req.online_state)
    &&& listing.filters.tags == req.tags
    &&& listing.limit == req.limit
    &&& listing.offset == req.offset
    &&& listing.order_by == <OrderBy as vstd::std_specs::convert::FromSpec<
        RequestOrderBy,
    >>::from_spec(req.order_by)
    &&& listing.order_by_desc == req.order_by_desc
    &&& listing.log_tenant_id == req.tenant_id
}

/// Whether `listing` is what a request for events of `dev_eui` asks for.
pub open spec fn lists_history(
    req: ListDeviceUplinkHistoryRequest,
    dev_eui: Eui64,
    listing: HistoryListing,
) -> bool {
    &&& listing.filters.dev_eui@ == eui64_text(dev_eui.value as nat)
    &&& listing.filters.event_type == req.event_type
    &&& listing.filters.search == req.search
    &&& listing.filters.f_port == (if req.has_f_port {
        Some(req.f_port)
    } else {
        None
    })
    &&& listing.limit == req.limit
    &&& listing.offset == req.offset
}

/// The identifier that a text stands for.
fn parse_eui64(s: &str) -> (r: Result<Eui64, RequestError>)
    ensures
        match r {
            Ok(e) => eui64_parsed(s@) == Some(e.value as nat),
            Err(e) => eui64_parsed(s@) is None && e is InvalidEui64,
        },
{
    match Eui64::parse(s) {
        Some(e) => Ok(e),
        None => Err(RequestError::InvalidEui64),
    }
}

/// The UUID that a text stands for, where it is not empty.
pub fn optional_uuid(value: &str) -> (r: Result<Option<u128>, RequestError>)
    ensures
        match r {
            Ok(id) => optional_uuid_parsed(value@) == Some(id),
            Err(e) => optional_uuid_parsed(value@) is None && e is InvalidUuid,
        },
{
    if value.is_empty() {
        return Ok(None);
    }
    match parse_uuid(value) {
        Ok(id) => Ok(Some(id)),
        Err(e) => Err(RequestError::InvalidUuid(e)),
    }
}

impl<V> Alinkwise<V> {
    /// What decides whether a call is open to its caller.
    pub closed spec fn validator_spec(self) -> V {
        self.validator
    }

    /// The service, with what decides whether a call is open to its caller.
    pub fn new(validator: V) -> (r: Self)
        ensures
            r.validator_spec() == validator,
    {
        Alinkwise { validator }
    }

    /// What decides whether a call is open to its caller.
    pub fn validator(&self) -> (r: &V)
        ensures
            *r == self.validator_spec(),
    {
        &self.validator
    }

    /// Clears the frames that the store holds of a gateway.
    pub fn clear_gateway_frame_log(&self, gateway_id: &str) -> (r: Result<Call, RequestError>)
        ensures
            match r {
                Ok(call) => {
                    &&& call matches Call::Authorize { access, work }
                    &&& access matches Access::Gateway { flag, gateway_id: id }
                    &&& flag is Delete
                    &&& eui64_parsed(gateway_id@) == Some(id.value as nat)
                    &&& work matches Work::ClearFrameLog { key }
                    &&& key@ == gateway_frame_key(id)
                },
                Err(e) => eui64_parsed(gateway_id@) is None && e is InvalidEui64,
            },
    {
        let id = match parse_eui64(gateway_id) {
            Ok(id) => id,
            Err(e) => return Err(e),
        };
        Ok(
            Call::Authorize {
                access: Access::Gateway { flag: Flag::Delete, gateway_id: id },
                work: Work::ClearFrameLog {
                    key: join3("gw:{", &id.to_text(), "}:stream:frame"),
                },
            },
        )
    }

    /// Clears the frames that the store holds of a device.
    pub fn clear_device_frame_log(&self, dev_eui: &str) -> (r: Result<Call, RequestError>)
        ensures
            match r {
                Ok(call) => {
                    &&& call matches Call::Authorize { access, work }
                    &&& access matches Access::Device { flag, dev_eui: id }
                    &&& flag is Delete
                    &&& eui64_parsed(dev_eui@) == Some(id.value as nat)
                    &&& work matches Work::ClearFrameLog { key }
                    &&& key@ == device_frame_key(id)
                },
                Err(e) => eui64_parsed(dev_eui@) is None && e is InvalidEui64,
            },
    {
        let id = match parse_eui64(dev_eui) {
            Ok(id) => id,
            Err(e) => return Err(e),
        };
        Ok(
            Call::Authorize {
                access: Access::Device { flag: Flag::Delete, dev_eui: id },
                work: Work::ClearFrameLog {
                    key: join3("device:{", &id.to_text(), "}:stream:frame"),
                },
            },
        )
    }

    /// Clears the metrics that the store holds of a device.
    pub fn clear_device_metrics(&self, dev_eui: &str) -> (r: Result<Call, RequestError>)
        ensures
            match r {
                Ok(call) => {
                    &&& call matches Call::Authorize { access, work }
                    &&& access matches Access::Device { flag, dev_eui: id }
                    &&& flag is Delete
                    &&& eui64_parsed(dev_eui@) == Some(id.value as nat)
                    &&& work matches Work::ClearMetrics { pattern }
                    &&& pattern@ == device_metrics_pattern(id)
                },
                Err(e) => eui64_parsed(dev_eui@) is None && e is InvalidEui64,
            },
    {
        let id = match parse_eui64(dev_eui) {
            Ok(id) => id,
            Err(e) => return Err(e),
        };
        Ok(
            Call::Authorize {
                access: Access::Device { flag: Flag::Delete, dev_eui: id },
                work: Work::ClearMetrics {
                    pattern: join3("metrics:{device:", &id.to_text(), "}*"),
                },
            },
        )
    }

    /// Deletes the events of a device.
    pub fn clear_device_uplink_history(&self, dev_eui: &str) -> (r: Result<Call, RequestError>)
        ensures
            match r {
                Ok(call) => {
                    &&& call matches Call::Authorize { access, work }
                    &&& access matches Access::Device { flag, dev_eui: id }
                    &&& flag is Delete
                    &&& eui64_parsed(dev_eui@) == Some(id.value as nat)
                    &&& work matches Work::ClearHistory { dev_eui: text }
                    &&& text@ == eui64_text(id.value as nat)
                },
                Err(e) => eui64_parsed(dev_eui@) is None && e is InvalidEui64,
            },
    {
        let id = match parse_eui64(dev_eui) {
            Ok(id) => id,
            Err(e) => return Err(e),
        };
        Ok(
            Call::Authorize {
                access: Access::Device { flag: Flag::Delete, dev_eui: id },
                work: Work::ClearHistory { dev_eui: id.to_text() },
            },
        )
    }

    /// Lists devices of a tenant.
    pub fn list_tenant_devices(&self, req: ListTenantDevicesRequest) -> (r: Result<
        Call,
        RequestError,
    >)
        ensures
            match r {
                Ok(call) => {
                    &&& devices_request_valid(req)
                    &&& call matches Call::Authorize { access, work }
                    &&& access matches Access::Applications { flag, tenant_id }
                    &&& flag is List
                    &&& uuid_parsed(req.tenant_id@) == Some(tenant_id)
                    &&& work matches Work::ListDevices(listing)
                    &&& lists_devices(req, listing)
                },
                Err(e) => !devices_request_valid(req) && e is InvalidUuid,
            },
    {
        let tenant_id = match parse_uuid(&req.tenant_id) {
            Ok(id) => id,
            Err(e) => return Err(RequestError::InvalidUuid(e)),
        };
        let application_id = match optional_uuid(&req.application_id) {
            Ok(id) => id,
            Err(e) => return Err(e),
        };
        let device_profile_id = match optional_uuid(&req.device_profile_id) {
            Ok(id) => id,
            Err(e) => return Err(e),
        };
        let filters = DeviceFilters {
            tenant_id,
            application_id,
            device_profile_id,
            search: if req.search.as_str().is_empty() {
                None
            } else {
                Some(req.search)
            },
            online_state: OnlineState::from(req.online_state),
            tags: req.tags,
        };
        Ok(
            Call::Authorize {
                access: Access::Applications { flag: Flag::List, tenant_id },
                work: Work::ListDevices(
                    DeviceListing {
                        filters,
                        limit: req.limit as i64,
                        offset: req.offset as i64,
                        order_by: OrderBy::from(req.order_by),
                        order_by_desc: req.order_by_desc,
                        log_tenant_id: req.tenant_id,
                    },
                ),
            },
        )
    }

    /// Lists events of a device.
    pub fn list_device_uplink_history(&self, req: ListDeviceUplinkHistoryRequest) -> (r: Result<
        Call,
        RequestError,
    >)
        ensures
            match r {
                Ok(call) => {
                    &&& call matches Call::Authorize { access, work }
                    &&& access matches Access::Device { flag, dev_eui: id }
                    &&& flag is Read
                    &&& eui64_parsed(req.dev_eui@) == Some(id.value as nat)
                    &&& work matches Work::ListHistory(listing)
                    &&& lists_history(req, id, listing)
                },
                Err(e) => eui64_parsed(req.dev_eui@) is None && e is InvalidEui64,
            },
    {
        let id = match parse_eui64(&req.dev_eui) {
            Ok(id) => id,
            Err(e) => return Err(e),
        };
        let filters = HistoryFilters {
            dev_eui: id.to_text(),
            event_type: req.event_type,
            search: req.search,
            f_port: if req.has_f_port {
                Some(req.f_port)
            } else {
                None
            },
        };
        Ok(
            Call::Authorize {
                access: Access::Device { flag: Flag::Read, dev_eui: id },
                work: Work::ListHistory(
                    HistoryListing {
                        filters,
                        limit: req.limit as i64,
                        offset: req.offset as i64,
                    },
                ),
            },
        )
    }
}

/// Whether `event` is the event `item` of an answer.
pub open spec fn shows_event(item: DeviceUplinkHistoryItem, event: HistoryEvent) -> bool {
    &&& event.deduplication_id == item.deduplication_id
    &&& event.event_type == item.event_type
    &&& event.time == item.time
    &&& event.dev_addr == item.dev_addr
    &&& event.dr == item.dr
    &&& event.f_cnt == item.f_cnt
    &&& event.f_port == item.f_port
    &&& event.confirmed == item.confirmed
    &&& event.data_hex == item.data_hex
    &&& event.object_json == item.object_json
    &&& event.rx_info_json == item.rx_info_json
    &&& event.tx_info_json == item.tx_info_json
    &&& event.tags_json == item.tags_json
    &&& event.summary_json == item.summary_json
}

/// The event of an answer for an event of the history.
pub fn to_device_uplink_history_item(item: DeviceUplinkHistoryItem) -> (r: HistoryEvent)
    ensures
        shows_event(item, r),
{
    HistoryEvent {
        deduplication_id: item.deduplication_id,
        event_type: item.event_type,
        time: item.time,
        dev_addr: item.dev_addr,
        dr: item.dr,
        f_cnt: item.f_cnt,
        f_port: item.f_port,
        confirmed: item.confirmed,
        data_hex: item.data_hex,
        object_json: item.object_json,
        rx_info_json: item.rx_info_json,
        tx_info_json: item.tx_info_json,
        tags_json: item.tags_json,
        summary_json: item.summary_json,
    }
}

/// Whether `device` is the device `item` of an answer that is given at `now`.
pub open spec fn shows_device(
    item: TenantDeviceListItem,
    now: Timestamp,
    device: TenantDevice,
) -> bool {
    &&& device.dev_eui@ == eui64_text(item.dev_eui.value as nat)
    &&& device.name == item.name
    &&& device.description == item.description
    &&& device.application_id@ == uuid_text(item.application_id)
    &&& device.application_name == item.application_name
    &&& device.device_profile_id@ == uuid_text(item.device_profile_id)
    &&& device.device_profile_name == item.device_profile_name
    &&& device.created_at == item.created_at
    &&& device.updated_at == item.updated_at
    &&& device.last_seen_at == item.last_seen_at
    &&& match (item.margin, device.device_status) {
        (Some(margin), Some(status)) => {
            &&& status.margin == margin
            &&& status.external_power_source == item.external_power_source
            &&& status.battery_level == item.battery_level
        },
        (None, None) => true,
        _ => false,
    }
    &&& device.tags == item.tags
    &&& device.join_eui@ == eui64_text(item.join_eui.value as nat)
    &&& device.is_disabled == item.is_disabled
    &&& device.is_active == item.activity().active_at(now)
    &&& device.class_enabled == item.class_enabled
}

/// The device of an answer that is given at `now`.
pub fn to_tenant_device_list_item_at(item: TenantDeviceListItem, now: Timestamp) -> (r: TenantDevice)
    ensures
        shows_device(item, now, r),
{
    let is_active = is_active_at(&item, now);
    TenantDevice {
        dev_eui: item.dev_eui.to_text(),
        name: item.name,
        description: item.description,
        application_id: uuid_to_text(item.application_id),
        application_name: item.application_name,
        device_profile_id: uuid_to_text(item.device_profile_id),
        device_profile_name: item.device_profile_name,
        created_at: item.created_at,
        updated_at: item.updated_at,
        last_seen_at: item.last_seen_at,
        device_status: match item.margin {
            Some(margin) => Some(
                DeviceStatus {
                    margin,
                    external_power_source: item.external_power_source,
                    battery_level: item.battery_level,
                },
            ),
            None => None,
        },
        tags: item.tags,
        join_eui: item.join_eui.to_text(),
        is_disabled: item.is_disabled,
        is_active,
        class_enabled: item.class_enabled,
    }
}

/// Whether `device` is the device `item` of an answer, whenever that is given.
pub open spec fn shows_device_sometime(item: TenantDeviceListItem, device: TenantDevice) -> bool {
    exists|now: Timestamp| now.is_clock_time() && shows_device(item, now, device)
}

/// The device of an answer that is given now.
pub fn to_tenant_device_list_item(item: TenantDeviceListItem) -> (r: TenantDevice)
    ensures
        shows_device_sometime(item, r),
{
    let now = now();
    to_tenant_device_list_item_at(item, now)
}

/// Whether the devices of an answer are `items`, in that order.
pub open spec fn shows_devices(
    items: Seq<TenantDeviceListItem>,
    devices: Seq<TenantDevice>,
) -> bool {
    &&& devices.len() == items.len()
    &&& forall|i: int|
        0 <= i < items.len() ==> shows_device_sometime(#[trigger] items[i], devices[i])
}

/// Whether the events of an answer are `items`, in that order.
pub open spec fn shows_events(
    items: Seq<DeviceUplinkHistoryItem>,
    events: Seq<HistoryEvent>,
) -> bool {
    &&& events.len() == items.len()
    &&& forall|i: int| 0 <= i < items.len() ==> shows_event(#[trigger] items[i], events[i])
}

/// What a granted call does first.
pub open spec fn started(work: Work) -> Call {
    match work {
        Work::ClearFrameLog { key } => Call::DeleteKey { key },
        Work::ClearMetrics { pattern } => Call::Scan { pattern, cursor: 0 },
        Work::ClearHistory { dev_eui } => Call::DeleteHistory { dev_eui },
        Work::ListDevices(listing) => Call::CountDevices(listing),
        Work::ListHistory(listing) => Call::CountHistory(listing),
    }
}

/// What follows a look for keys once the keys that it found are gone. The store is looked through
/// when it hands back the cursor 0.
pub open spec fn scanned_on(pattern: String, next_cursor: u64) -> Call {
    if next_cursor == 0 {
        Call::Answer(Answer::MetricsCleared)
    } else {
        Call::Scan { pattern, cursor: next_cursor }
    }
}

/// Whether `outcome` is one that what is to be done next can have.
pub open spec fn fits(call: Call, outcome: Outcome) -> bool {
    match (call, outcome) {
        (Call::Answer(_), _) | (Call::Fail, _) => false,
        (_, Outcome::Failed) => true,
        (Call::Authorize { .. }, Outcome::Granted) => true,
        (Call::DeleteKey { .. }, Outcome::Deleted) => true,
        (Call::Scan { .. }, Outcome::Scanned { .. }) => true,
        (Call::DeleteScanned { .. }, Outcome::Deleted) => true,
        (Call::DeleteHistory { .. }, Outcome::HistoryDeleted { .. }) => true,
        (Call::CountDevices(_), Outcome::Counted { .. }) => true,
        (Call::ListDevices { .. }, Outcome::DevicesListed { .. }) => true,
        (Call::CountHistory(_), Outcome::Counted { .. }) => true,
        (Call::ListHistory { .. }, Outcome::HistoryListed { .. }) => true,
        _ => false,
    }
}

/// Whether `next` is what a call has become after `outcome`. Counts are answered by their low 32
/// bits.
pub open spec fn follows(call: Call, outcome: Outcome, next: Call) -> bool {
    match (call, outcome) {
        (_, Outcome::Failed) => next == Call::Fail,
        (Call::Authorize { work, .. }, _) => next == started(work),
        (Call::DeleteKey { .. }, _) => next == Call::Answer(Answer::FrameLogCleared),
        (Call::Scan { pattern, .. }, Outcome::Scanned { next_cursor, keys }) => if keys@.len() == 0 {
            next == scanned_on(pattern, next_cursor)
        } else {
            next == (Call::DeleteScanned { keys, pattern, next_cursor })
        },
        (Call::DeleteScanned { pattern, next_cursor, .. }, _) => next == scanned_on(
            pattern,
            next_cursor,
        ),
        (Call::DeleteHistory { .. }, Outcome::HistoryDeleted { deleted }) => next == Call::Answer(
            Answer::HistoryCleared { deleted_count: deleted as u32 },
        ),
        (Call::CountDevices(listing), Outcome::Counted { total }) => next == (Call::ListDevices {
            listing,
            total,
        }),
        (Call::ListDevices { listing, total }, Outcome::DevicesListed { items }) => {
            &&& next matches Call::Answer(Answer::Devices { total_count, result, log_tenant_id })
            &&& total_count == total as u32
            &&& shows_devices(items@, result@)
            &&& log_tenant_id == listing.log_tenant_id
        },
        (Call::CountHistory(listing), Outcome::Counted { total }) => next == (Call::ListHistory {
            listing,
            total,
        }),
        (Call::ListHistory { total, .. }, Outcome::HistoryListed { items }) => {
            &&& next matches Call::Answer(Answer::History { total_count, result })
            &&& total_count == total as u32
            &&& shows_events(items@, result@)
        },
        _ => false,
    }
}

fn show_devices(items: Vec<TenantDeviceListItem>) -> (r: Vec<TenantDevice>)
    ensures
        shows_devices(items@, r@),
{
    let mut r: Vec<TenantDevice> = Vec::new();
    for item in it: items
        invariant
            it.seq() == items@,
            r@.len() == it.index(),
            forall|i: int|
                0 <= i < r@.len() ==> shows_device_sometime(#[trigger] items@[i], r@[i]),
    {
        r.push(to_tenant_device_list_item(item));
    }
    r
}

fn show_events(items: Vec<DeviceUplinkHistoryItem>) -> (r: Vec<HistoryEvent>)
    ensures
        shows_events(items@, r@),
{
    let mut r: Vec<HistoryEvent> = Vec::new();
    for item in it: items
        invariant
            it.seq() == items@,
            r@.len() == it.index(),
            forall|i: int| 0 <= i < r@.len() ==> shows_event(#[trigger] items@[i], r@[i]),
    {
        r.push(to_device_uplink_history_item(item));
    }
    r
}

fn start(work: Work) -> (r: Call)
    ensures
        r == started(work),
{
    match work {
        Work::ClearFrameLog { key } => Call::DeleteKey { key },
        Work::ClearMetrics { pattern } => Call::Scan { pattern, cursor: 0 },
        Work::ClearHistory { dev_eui } => Call::DeleteHistory { dev_eui },
        Work::ListDevices(listing) => Call::CountDevices(listing),
        Work::ListHistory(listing) => Call::CountHistory(listing),
    }
}

fn scan_on(pattern: String, next_cursor: u64) -> (r: Call)
    ensures
        r == scanned_on(pattern, next_cursor),
{
    if next_cursor == 0 {
        Call::Answer(Answer::MetricsCleared)
    } else {
        Call::Scan { pattern, cursor: next_cursor }
    }
}

impl Call {
    /// What the call has become after `outcome`.
    pub fn advance(self, outcome: Outcome) -> (r: Call)
        requires
            fits(self, outcome),
        ensures
            follows(self, outcome, r),
    {
        match (self, outcome) {
            (_, Outcome::Failed) => Call::Fail,
            (Call::Authorize { work, .. }, _) => start(work),
            (Call::DeleteKey { .. }, _) => Call::Answer(Answer::FrameLogCleared),
            (Call::Scan { pattern, .. }, Outcome::Scanned { next_cursor, keys }) => {
                if keys.len() == 0 {
                    scan_on(pattern, next_cursor)
                } else {
                    Call::DeleteScanned { keys, pattern, next_cursor }
                }
            },
            (Call::DeleteScanned { pattern, next_cursor, .. }, _) => scan_on(pattern, next_cursor),
            (Call::DeleteHistory { .. }, Outcome::HistoryDeleted { deleted }) => Call::Answer(
                Answer::HistoryCleared { deleted_count: #[verifier::truncate] (deleted as u32) },
            ),
            (Call::CountDevices(listing), Outcome::Counted { total }) => Call::ListDevices {
                listing,
                total,
            },
            (
                Call::ListDevices { listing, total },
                Outcome::DevicesListed { items },
            ) => Call::Answer(
                Answer::Devices {
                    total_count: #[verifier::truncate] (total as u32),
                    result: show_devices(items),
                    log_tenant_id: listing.log_tenant_id,
                },
            ),
            (Call::CountHistory(listing), Outcome::Counted { total }) => Call::ListHistory {
                listing,
                total,
            },
            (Call::ListHistory { total, .. }, Outcome::HistoryListed { items }) => Call::Answer(
                Answer::History {
                    total_count: #[verifier::truncate] (total as u32),
                    result: show_events(items),
                },
            ),
            (call, _) => call,
        }
    }
}

/// Whether what is to be done next reads or changes what is stored.
pub open spec fn uses_store(call: Call) -> bool {
    match call {
        Call::Authorize { .. } | Call::Answer(_) | Call::Fail => false,
        _ => true,
    }
}

/// Whether a call went through `calls`, with `outcomes` in between.
pub open spec fn is_run(calls: Seq<Call>, outcomes: Seq<Outcome>) -> bool {
    &&& calls.len() == outcomes.len() + 1
    &&& forall|i: int|
        0 <= i < outcomes.len() ==> fits(#[trigger] calls[i], outcomes[i]) && follows(
            calls[i],
            outcomes[i],
            calls[i + 1],
        )
}

/// What is stored is neither read nor changed before the call is found open to its caller.
pub proof fn law_nothing_before_grant(calls: Seq<Call>, outcomes: Seq<Outcome>, k: int)
    requires
        is_run(calls, outcomes),
        calls[0] is Authorize,
        0 <= k < calls.len(),
        uses_store(calls[k]),
    ensures
        outcomes.len() > 0,
        outcomes[0] is Granted,
{
    assert(k > 0);
    assert(fits(calls[0], outcomes[0]));
    if outcomes[0] is Failed {
        assert(calls[1] == Call::Fail);
        if k > 1 {
            assert(fits(calls[1], outcomes[1]));
        }
    }
}

/// A call that is not open to its caller, or of which anything fails, is answered with that
/// failure, and does no more.
pub proof fn law_failure_ends_call(calls: Seq<Call>, outcomes: Seq<Outcome>, k: int)
    requires
        is_run(calls, outcomes),
        0 <= k < outcomes.len(),
        outcomes[k] is Failed,
    ensures
        k == outcomes.len() - 1,
        calls.last() == Call::Fail,
{
    assert(fits(calls[k], outcomes[k]));
    assert(calls[k + 1] == Call::Fail);
    if k + 1 < outcomes.len() {
        assert(fits(calls[k + 1], outcomes[k + 1]));
    }
}

/// A call that was answered with success was found open to its caller.
pub proof fn law_answer_needs_grant(calls: Seq<Call>, outcomes: Seq<Outcome>)
    requires
        is_run(calls, outcomes),
        calls[0] is Authorize,
        calls.last() is Answer,
    ensures
        outcomes.len() > 0,
        outcomes[0] is Granted,
{
    assert(fits(calls[0], outcomes[0]));
    if outcomes[0] is Failed {
        law_failure_ends_call(calls, outcomes, 0);
    }
}

/// When the metrics of a device are reported as cleared, all keys that were found are gone, the
/// store was looked through from its start to its end, and each look took up where the one before
/// it had stopped.
pub proof fn law_metrics_cleared(calls: Seq<Call>, outcomes: Seq<Outcome>)
    requires
        is_run(calls, outcomes),
        calls.last() == Call::Answer(Answer::MetricsCleared),
    ensures
        forall|i: int|
            0 <= i < outcomes.len() ==> (#[trigger] outcomes[i] matches Outcome::Scanned {
                next_cursor,
                keys,
            } ==> {
                let done = if keys@.len() == 0 {
                    i + 1
                } else {
                    i + 2
                };
                &&& keys@.len() > 0 ==> {
                    &&& i + 1 < outcomes.len()
                    &&& calls[i + 1] matches Call::DeleteScanned { keys: gone, .. }
                    &&& gone == keys
                    &&& outcomes[i + 1] is Deleted
                }
                &&& next_cursor == 0 <==> done == calls.len() - 1
                &&& next_cursor != 0 ==> {
                    &&& done < calls.len() - 1
                    &&& calls[done] matches Call::Scan { cursor, .. }
                    &&& cursor == next_cursor
                }
            }),
{
    assert forall|i: int| 0 <= i < outcomes.len() && #[trigger] outcomes[i] is Scanned implies {
        let next_cursor = outcomes[i]->next_cursor;
        let keys = outcomes[i]->keys;
        let done = if keys@.len() == 0 {
            i + 1
        } else {
            i + 2
        };
        &&& keys@.len() > 0 ==> {
            &&& i + 1 < outcomes.len()
            &&& calls[i + 1] matches Call::DeleteScanned { keys: gone, .. }
            &&& gone == keys
            &&& outcomes[i + 1] is Deleted
        }
        &&& next_cursor == 0 <==> done == calls.len() - 1
        &&& next_cursor != 0 ==> {
            &&& done < calls.len() - 1
            &&& calls[done] matches Call::Scan { cursor, .. }
            &&& cursor == next_cursor
        }
    } by {
        assert(fits(calls[i], outcomes[i]));
        let done = if outcomes[i]->keys@.len() == 0 {
            i + 1
        } else {
            i + 2
        };
        if outcomes[i]->keys@.len() > 0 {
            assert(fits(calls[i + 1], outcomes[i + 1]));
            if outcomes[i + 1] is Failed {
                law_failure_ends_call(calls, outcomes, i + 1);
            }
        }
        if done < outcomes.len() {
            assert(fits(calls[done], outcomes[done]));
        }
    }
}

/// Whether a call that does `work` can be at `call` once it is granted: what it touches is what the
/// work names, and its answer is of the kind that the work asks for.
pub open spec fn serves(work: Work, call: Call) -> bool {
    match (work, call) {
        (_, Call::Fail) => true,
        (Work::ClearFrameLog { key }, Call::DeleteKey { key: k }) => k == key,
        (Work::ClearFrameLog { .. }, Call::Answer(answer)) => answer is FrameLogCleared,
        (Work::ClearMetrics { pattern }, Call::Scan { pattern: p, .. }) => p == pattern,
        (Work::ClearMetrics { pattern }, Call::DeleteScanned { pattern: p, .. }) => p == pattern,
        (Work::ClearMetrics { .. }, Call::Answer(answer)) => answer is MetricsCleared,
        (Work::ClearHistory { dev_eui }, Call::DeleteHistory { dev_eui: d }) => d == dev_eui,
        (Work::ClearHistory { .. }, Call::Answer(answer)) => answer is HistoryCleared,
        (Work::ListDevices(listing), Call::CountDevices(l)) => l == listing,
        (Work::ListDevices(listing), Call::ListDevices { listing: l, .. }) => l == listing,
        (Work::ListDevices(listing), Call::Answer(answer)) => {
            answer is Devices && answer->log_tenant_id == listing.log_tenant_id
        },
        (Work::ListHistory(listing), Call::CountHistory(l)) => l == listing,
        (Work::ListHistory(listing), Call::ListHistory { listing: l, .. }) => l == listing,
        (Work::ListHistory(_), Call::Answer(answer)) => answer is History,
        _ => false,
    }
}

/// A call keeps to the work that it was authorized for: it touches nothing else, and it is answered
/// in kind.
pub proof fn law_call_keeps_to_its_work(calls: Seq<Call>, outcomes: Seq<Outcome>, k: int)
    requires
        is_run(calls, outcomes),
        calls[0] is Authorize,
        0 < k < calls.len(),
    ensures
        serves(calls[0]->work, calls[k]),
    decreases k,
{
    assert(fits(calls[k - 1], outcomes[k - 1]));
    assert(follows(calls[k - 1], outcomes[k - 1], calls[k]));
    if k > 1 {
        law_call_keeps_to_its_work(calls, outcomes, k - 1);
    }
}

/// Counting comes before listing: the total of an answer is what was counted by the very listing
/// that the answer shows, taken by its low 32 bits.
pub proof fn law_total_is_counted(calls: Seq<Call>, outcomes: Seq<Outcome>)
    requires
        is_run(calls, outcomes),
        calls[0] is Authorize,
        calls.last() matches Call::Answer(answer) && (answer is Devices || answer is History),
    ensures
        outcomes.len() == 3,
        outcomes[1] is Counted,
        match (calls.last()->0, outcomes[2]) {
            (
                Answer::Devices { total_count, result, .. },
                Outcome::DevicesListed { items },
            ) => total_count == outcomes[1]->total as u32 && shows_devices(items@, result@),
            (
                Answer::History { total_count, result },
                Outcome::HistoryListed { items },
            ) => total_count == outcomes[1]->total as u32 && shows_events(items@, result@),
            _ => false,
        },
{
    law_answer_needs_grant(calls, outcomes);
    let n = outcomes.len() as int;
    law_call_keeps_to_its_work(calls, outcomes, n);
    assert(fits(calls[0], outcomes[0]));
    assert(calls[1] == started(calls[0]->work));
    assert(n > 1);
    assert(fits(calls[1], outcomes[1]));
    if outcomes[1] is Failed {
        law_failure_ends_call(calls, outcomes, 1);
    }
    assert(n > 2);
    assert(fits(calls[2], outcomes[2]));
    if outcomes[2] is Failed {
        law_failure_ends_call(calls, outcomes, 2);
    }
    if n > 3 {
        assert(fits(calls[3], outcomes[3]));
    }
}

/// However an identifier is spelled, a call for it is about the same gateway or device: the keys
/// are made from the identifier, not from its spelling.
pub proof fn law_spelling_does_not_matter(a: Seq<char>, b: Seq<char>, id: Eui64, other: Eui64)
    requires
        eui64_parsed(a) == eui64_parsed(b),
        eui64_parsed(a) == Some(id.value as nat),
        eui64_parsed(b) == Some(other.value as nat),
    ensures
        gateway_frame_key(id) == gateway_frame_key(other),
        device_frame_key(id) == device_frame_key(other),
        device_metrics_pattern(id) == device_metrics_pattern(other),
{
}

proof fn lemma_eui64_text_is_distinct(a: Eui64, b: Eui64)
    requires
        eui64_text(a.value as nat) == eui64_text(b.value as nat),
    ensures
        a == b,
{
    law_eui64_round_trip(a);
    law_eui64_round_trip(b);
}

/// Two gateways do not share the key of their frames. Two devices share neither the key of their
/// frames nor the pattern of their metrics.
pub proof fn law_identifiers_are_kept_apart(a: Eui64, b: Eui64)
    requires
        a != b,
    ensures
        gateway_frame_key(a) != gateway_frame_key(b),
        device_frame_key(a) != device_frame_key(b),
        device_metrics_pattern(a) != device_metrics_pattern(b),
{
    let (x, y) = (eui64_text(a.value as nat), eui64_text(b.value as nat));
    lemma_hex_digits(a.value as nat, 16);
    lemma_hex_digits(b.value as nat, 16);
    let frame = "device:{"@.len() as int;
    assert(device_frame_key(a).subrange(frame, frame + 16) =~= x);
    assert(device_frame_key(b).subrange(frame, frame + 16) =~= y);
    let gateway = "gw:{"@.len() as int;
    assert(gateway_frame_key(a).subrange(gateway, gateway + 16) =~= x);
    assert(gateway_frame_key(b).subrange(gateway, gateway + 16) =~= y);
    let metrics = "metrics:{device:"@.len() as int;
    assert(device_metrics_pattern(a).subrange(metrics, metrics + 16) =~= x);
    assert(device_metrics_pattern(b).subrange(metrics, metrics + 16) =~= y);
    if x == y {
        lemma_eui64_text_is_distinct(a, b);
    }
}

/// The frames of a gateway and those of a device are never under the same key.
pub proof fn law_gateways_and_devices_are_kept_apart(gateway_id: Eui64, dev_eui: Eui64)
    ensures
        gateway_frame_key(gateway_id) != device_frame_key(dev_eui),
{
    reveal_strlit("gw:{");
    reveal_strlit("device:{");
    assert(gateway_frame_key(gateway_id)[0] == 'g');
    assert(device_frame_key(dev_eui)[0] == 'd');
}

/// Whether two requests ask for the same devices, whatever the page and the order.
pub open spec fn asks_alike(a: ListTenantDevicesRequest, b: ListTenantDevicesRequest) -> bool {
    &&& a.tenant_id@ == b.tenant_id@
    &&& a.application_id@ == b.application_id@
    &&& a.device_profile_id@ == b.device_profile_id@
    &&& a.search@ == b.search@
    &&& a.online_state == b.online_state
    &&& a.tags@ == b.tags@
}

/// Two requests that ask for the same devices count the same, whatever the page and the order.
pub proof fn law_same_devices_same_count(
    engine: Engine,
    table: Seq<DeviceRow>,
    a: ListTenantDevicesRequest,
    b: ListTenantDevicesRequest,
    listing_a: DeviceListing,
    listing_b: DeviceListing,
)
    requires
        asks_alike(a, b),
        lists_devices(a, listing_a),
        lists_devices(b, listing_b),
    ensures
        device_count(engine, listing_a.filters, table) == device_count(
            engine,
            listing_b.filters,
            table,
        ),
{
    assert(conditions(engine.db, listing_a.filters) =~= conditions(engine.db, listing_b.filters));
}

/// The total of an answer is the number of all devices that the request asks for, not of those on
/// the page; the page is no longer than the request has it, and its devices are shown in the order
/// in which they were listed. Totals from 2^32 on are left out: only their low 32 bits are answered.
pub proof fn law_total_is_of_all_pages(
    engine: Engine,
    table: Seq<DeviceRow>,
    req: ListTenantDevicesRequest,
    listing: DeviceListing,
    calls: Seq<Call>,
    outcomes: Seq<Outcome>,
)
    requires
        lists_devices(req, listing),
        is_run(calls, outcomes),
        calls[0] matches Call::Authorize { work, .. } && work == Work::ListDevices(listing),
        calls.last() is Answer,
        outcomes[1] matches Outcome::Counted { total } && total == device_count(
            engine,
            listing.filters,
            table,
        ),
        outcomes[2] matches Outcome::DevicesListed { items } && items@.len() == page_len(
            device_count(engine, listing.filters, table),
            listing.limit as int,
            listing.offset as int,
        ),
        device_count(engine, listing.filters, table) < 0x1_0000_0000,
    ensures
        ({
            &&& calls.last()->0 matches Answer::Devices { total_count, result, log_tenant_id }
            &&& total_count == device_count(engine, listing.filters, table)
            &&& result@.len() <= req.limit
            &&& shows_devices(outcomes[2]->DevicesListed_items@, result@)
            &&& log_tenant_id == req.tenant_id
        }),
{
    law_answer_needs_grant(calls, outcomes);
    law_call_keeps_to_its_work(calls, outcomes, outcomes.len() as int);
    law_total_is_counted(calls, outcomes);
}

} // verus!
