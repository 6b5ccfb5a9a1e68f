use alinkwise::alinkwise::api::{
    optional_uuid, to_device_uplink_history_item, Access, Alinkwise, Answer, Call, Flag,
    ListDeviceUplinkHistoryRequest, ListTenantDevicesRequest, Outcome, RequestError,
    RequestOnlineState, RequestOrderBy, Work, SCAN_COUNT,
};
use alinkwise::alinkwise::device_query::{DeviceClass, OnlineState, OrderBy, TenantDeviceListItem};
use alinkwise::alinkwise::uplink_history::DeviceUplinkHistoryItem;
use alinkwise::eui64::Eui64;
use alinkwise::tags::Tags;
use alinkwise::time::Timestamp;

const TENANT: &str = "550e8400-e29b-41d4-a716-446655440000";
const TENANT_ID: u128 = 0x550e8400_e29b_41d4_a716_446655440000;

fn service() -> Alinkwise<u8> {
    Alinkwise::new(5)
}

fn devices_request() -> ListTenantDevicesRequest {
    ListTenantDevicesRequest {
        tenant_id: TENANT.to_string(),
        application_id: "".to_string(),
        device_profile_id: "".to_string(),
        search: "".to_string(),
        online_state: RequestOnlineState::All,
        tags: Tags::new(),
        limit: 10,
        offset: 20,
        order_by: RequestOrderBy::Name,
        order_by_desc: false,
    }
}

fn history_request() -> ListDeviceUplinkHistoryRequest {
    ListDeviceUplinkHistoryRequest {
        dev_eui: "0102030405060708".to_string(),
        event_type: "up".to_string(),
        search: " s ".to_string(),
        has_f_port: false,
        f_port: 9,
        limit: 10,
        offset: u32::MAX,
    }
}

fn item() -> TenantDeviceListItem {
    TenantDeviceListItem {
        dev_eui: Eui64 { value: 1 },
        name: "n".to_string(),
        description: "".to_string(),
        application_id: 1,
        application_name: "a".to_string(),
        device_profile_id: 2,
        device_profile_name: "p".to_string(),
        created_at: Timestamp { seconds: 0, nanos: 0 },
        updated_at: Timestamp { seconds: 0, nanos: 0 },
        last_seen_at: None,
        margin: None,
        external_power_source: false,
        battery_level: None,
        tags: Tags::new(),
        join_eui: Eui64 { value: 0 },
        is_disabled: false,
        class_enabled: DeviceClass::A,
        uplink_interval: 60,
    }
}

fn event(id: &str) -> DeviceUplinkHistoryItem {
    DeviceUplinkHistoryItem {
        deduplication_id: id.to_string(),
        event_type: "up".to_string(),
        time: "t".to_string(),
        dev_addr: "d".to_string(),
        dr: 1,
        f_cnt: "2".to_string(),
        f_port: 3,
        confirmed: true,
        data_hex: "h".to_string(),
        object_json: "o".to_string(),
        rx_info_json: "r".to_string(),
        tx_info_json: "x".to_string(),
        tags_json: "g".to_string(),
        summary_json: "s".to_string(),
    }
}

fn granted(call: Call) -> Call {
    assert!(matches!(call, Call::Authorize { .. }));
    call.advance(Outcome::Granted)
}

#[test]
fn service_holds_its_validator() {
    assert_eq!(*service().validator(), 5);
}

#[test]
fn identifiers_of_devices() {
    assert_eq!(Eui64::parse("0102030405060708"), Some(Eui64 { value: 0x0102_0304_0506_0708 }));
    assert_eq!(Eui64::parse("FFfffFFFffffFFff"), Some(Eui64 { value: u64::MAX }));
    assert_eq!(Eui64::parse("abcdefABCDEF0000").unwrap().to_text(), "abcdefabcdef0000");
    assert_eq!(Eui64 { value: 0 }.to_text(), "0000000000000000");
    for text in [
        "",
        "010203040506070",
        "01020304050607081",
        "010203040506070g",
        "0102-0304-050607",
        "+102030405060708",
        "\u{e9}10203040506070",
        "\u{ff10}102030405060708",
    ] {
        assert_eq!(Eui64::parse(text), None);
    }
    for value in [0, 1, 0xdead_beef, u64::MAX] {
        assert_eq!(Eui64::parse(&Eui64 { value }.to_text()), Some(Eui64 { value }));
    }
}

#[test]
fn identifiers_of_tenants() {
    assert!(matches!(optional_uuid(""), Ok(None)));
    for text in [
        "550e8400-e29b-41d4-a716-446655440000",
        "550E8400-E29B-41D4-A716-446655440000",
        "550e8400e29b41d4a716446655440000",
        "{550e8400-e29b-41d4-a716-446655440000}",
        "urn:uuid:550e8400-e29b-41d4-a716-446655440000",
        "URN:UUID:550e8400-e29b-41d4-a716-446655440000",
    ] {
        match optional_uuid(text) {
            Ok(Some(id)) => assert_eq!(id, TENANT_ID),
            _ => panic!("{}", text),
        }
    }
    for text in [
        " ",
        "550e8400-e29b-41d4-a716-44665544000",
        "550e8400-e29b-41d4-a716-4466554400000",
        "550e8400-e29b-41d4-a716-44665544000g",
        "550e8400e-29b-41d4-a716-446655440000",
        "{550e8400e29b41d4a716446655440000}",
        "(550e8400-e29b-41d4-a716-446655440000)",
        "urn:oidx:550e8400-e29b-41d4-a716-446655440000",
        "550e8400e29b41d4a71644665544000\u{e9}",
    ] {
        assert!(matches!(optional_uuid(text), Err(RequestError::InvalidUuid(_))), "{}", text);
    }
}

#[test]
fn clear_frames_of_a_gateway() {
    let call = service().clear_gateway_frame_log("010203040506070A").unwrap();
    match &call {
        Call::Authorize { access, .. } => assert_eq!(
            *access,
            Access::Gateway { flag: Flag::Delete, gateway_id: Eui64 { value: 0x0102_0304_0506_070a } }
        ),
        _ => panic!(),
    }
    let call = granted(call);
    match &call {
        Call::DeleteKey { key } => assert_eq!(key, "gw:{010203040506070a}:stream:frame"),
        _ => panic!(),
    }
    assert!(matches!(call.advance(Outcome::Deleted), Call::Answer(Answer::FrameLogCleared)));
}

#[test]
fn spelling_of_an_identifier_does_not_matter() {
    let key = |id| match granted(service().clear_gateway_frame_log(id).unwrap()) {
        Call::DeleteKey { key } => key,
        _ => panic!(),
    };
    assert_eq!(key("ABCDEFabcdef0001"), key("abcdefabcdef0001"));
    assert_ne!(key("abcdefabcdef0001"), key("abcdefabcdef0002"));
}

#[test]
fn clear_frames_of_a_device() {
    let call = service().clear_device_frame_log("010203040506070A").unwrap();
    match &call {
        Call::Authorize { access, .. } => assert_eq!(
            *access,
            Access::Device { flag: Flag::Delete, dev_eui: Eui64 { value: 0x0102_0304_0506_070a } }
        ),
        _ => panic!(),
    }
    match granted(call) {
        Call::DeleteKey { key } => assert_eq!(key, "device:{010203040506070a}:stream:frame"),
        _ => panic!(),
    }
}

#[test]
fn clear_metrics_scans_to_the_end() {
    assert_eq!(SCAN_COUNT, 100);
    let pattern = "metrics:{device:010203040506070a}*";
    let call = granted(service().clear_device_metrics("010203040506070A").unwrap());
    match &call {
        Call::Scan { pattern: p, cursor: 0 } => assert_eq!(p, pattern),
        _ => panic!(),
    }
    let call = call.advance(Outcome::Scanned { next_cursor: 7, keys: Vec::new() });
    match &call {
        Call::Scan { pattern: p, cursor: 7 } => assert_eq!(p, pattern),
        _ => panic!(),
    }
    let call = call.advance(Outcome::Scanned { next_cursor: 9, keys: vec!["k".to_string()] });
    match &call {
        Call::DeleteScanned { keys, .. } => assert_eq!(*keys, vec!["k".to_string()]),
        _ => panic!(),
    }
    let call = call.advance(Outcome::Deleted);
    match &call {
        Call::Scan { pattern: p, cursor: 9 } => assert_eq!(p, pattern),
        _ => panic!(),
    }
    let call = call.advance(Outcome::Scanned { next_cursor: 0, keys: vec!["l".to_string()] });
    assert!(matches!(call, Call::DeleteScanned { .. }));
    assert!(matches!(call.advance(Outcome::Deleted), Call::Answer(Answer::MetricsCleared)));
}

#[test]
fn clear_metrics_without_keys() {
    let call = granted(service().clear_device_metrics("0102030405060708").unwrap());
    let call = call.advance(Outcome::Scanned { next_cursor: 0, keys: Vec::new() });
    assert!(matches!(call, Call::Answer(Answer::MetricsCleared)));
}

#[test]
fn clear_history() {
    let call = granted(service().clear_device_uplink_history("010203040506070A").unwrap());
    match &call {
        Call::DeleteHistory { dev_eui } => assert_eq!(dev_eui, "010203040506070a"),
        _ => panic!(),
    }
    match call.advance(Outcome::HistoryDeleted { deleted: 0x1_0000_0003 }) {
        Call::Answer(Answer::HistoryCleared { deleted_count }) => assert_eq!(deleted_count, 3),
        _ => panic!(),
    }
}

#[test]
fn broken_identifiers_are_refused() {
    let s = service();
    assert!(matches!(s.clear_gateway_frame_log("x"), Err(RequestError::InvalidEui64)));
    assert!(matches!(s.clear_device_frame_log("x"), Err(RequestError::InvalidEui64)));
    assert!(matches!(s.clear_device_metrics("x"), Err(RequestError::InvalidEui64)));
    assert!(matches!(s.clear_device_uplink_history("x"), Err(RequestError::InvalidEui64)));
    let mut req = history_request();
    req.dev_eui = "".to_string();
    assert!(matches!(s.list_device_uplink_history(req), Err(RequestError::InvalidEui64)));
    let mut req = devices_request();
    req.tenant_id = "".to_string();
    assert!(matches!(s.list_tenant_devices(req), Err(RequestError::InvalidUuid(_))));
    let mut req = devices_request();
    req.application_id = "x".to_string();
    assert!(matches!(s.list_tenant_devices(req), Err(RequestError::InvalidUuid(_))));
    let mut req = devices_request();
    req.device_profile_id = "x".to_string();
    assert!(matches!(s.list_tenant_devices(req), Err(RequestError::InvalidUuid(_))));
}

#[test]
fn list_devices() {
    let mut req = devices_request();
    req.application_id = TENANT.to_string();
    req.search = "s".to_string();
    req.online_state = RequestOnlineState::Offline;
    req.tags = Tags::new().with("k".to_string(), "v".to_string());
    req.order_by = RequestOrderBy::LastSeenAt;
    req.order_by_desc = true;
    let call = service().list_tenant_devices(req).unwrap();
    match &call {
        Call::Authorize { access, work } => {
            assert_eq!(*access, Access::Applications { flag: Flag::List, tenant_id: TENANT_ID });
            assert!(matches!(work, Work::ListDevices(_)));
        }
        _ => panic!(),
    }
    let call = granted(call);
    match &call {
        Call::CountDevices(listing) => {
            assert_eq!(listing.filters.tenant_id, TENANT_ID);
            assert_eq!(listing.filters.application_id, Some(TENANT_ID));
            assert_eq!(listing.filters.device_profile_id, None);
            assert_eq!(listing.filters.search, Some("s".to_string()));
            assert_eq!(listing.filters.online_state, OnlineState::Offline);
            assert_eq!(listing.filters.tags.pairs().len(), 1);
            assert_eq!((listing.limit, listing.offset), (10, 20));
            assert_eq!(listing.order_by, OrderBy::LastSeenAt);
            assert!(listing.order_by_desc);
            assert_eq!(listing.log_tenant_id, TENANT);
        }
        _ => panic!(),
    }
    let call = call.advance(Outcome::Counted { total: 41 });
    assert!(matches!(call, Call::ListDevices { total: 41, .. }));
    match call.advance(Outcome::DevicesListed { items: vec![item(), item()] }) {
        Call::Answer(Answer::Devices { total_count, result, log_tenant_id }) => {
            assert_eq!(total_count, 41);
            assert_eq!(result.len(), 2);
            assert_eq!(result[1].dev_eui, "0000000000000001");
            assert!(!result[0].is_active);
            assert_eq!(log_tenant_id, TENANT);
        }
        _ => panic!(),
    }
}

#[test]
fn empty_search_is_none() {
    match granted(service().list_tenant_devices(devices_request()).unwrap()) {
        Call::CountDevices(listing) => assert_eq!(listing.filters.search, None),
        _ => panic!(),
    }
}

#[test]
fn list_events() {
    let call = service().list_device_uplink_history(history_request()).unwrap();
    match &call {
        Call::Authorize { access, .. } => assert_eq!(
            *access,
            Access::Device { flag: Flag::Read, dev_eui: Eui64 { value: 0x0102_0304_0506_0708 } }
        ),
        _ => panic!(),
    }
    let call = granted(call);
    match &call {
        Call::CountHistory(listing) => {
            assert_eq!(listing.filters.dev_eui, "0102030405060708");
            assert_eq!(listing.filters.event_type, "up");
            assert_eq!(listing.filters.search, " s ");
            assert_eq!(listing.filters.f_port, None);
            assert_eq!((listing.limit, listing.offset), (10, 0xffff_ffff));
        }
        _ => panic!(),
    }
    let call = call.advance(Outcome::Counted { total: -1 });
    match call.advance(Outcome::HistoryListed { items: vec![event("1"), event("2")] }) {
        Call::Answer(Answer::History { total_count, result }) => {
            assert_eq!(total_count, u32::MAX);
            assert_eq!(result.len(), 2);
            assert_eq!(result[0].deduplication_id, "1");
            assert_eq!(result[1].deduplication_id, "2");
        }
        _ => panic!(),
    }
}

#[test]
fn port_counts_where_it_is_given() {
    let mut req = history_request();
    req.has_f_port = true;
    match granted(service().list_device_uplink_history(req).unwrap()) {
        Call::CountHistory(listing) => assert_eq!(listing.filters.f_port, Some(9)),
        _ => panic!(),
    }
}

#[test]
fn event_of_an_answer() {
    let e = to_device_uplink_history_item(event("i"));
    assert_eq!(e.deduplication_id, "i");
    assert_eq!(e.event_type, "up");
    assert_eq!(e.time, "t");
    assert_eq!(e.dev_addr, "d");
    assert_eq!((e.dr, e.f_port, e.confirmed), (1, 3, true));
    assert_eq!(e.f_cnt, "2");
    assert_eq!(e.data_hex, "h");
    assert_eq!(e.object_json, "o");
    assert_eq!(e.rx_info_json, "r");
    assert_eq!(e.tx_info_json, "x");
    assert_eq!(e.tags_json, "g");
    assert_eq!(e.summary_json, "s");
}

#[test]
fn refused_call_fails_and_touches_nothing() {
    let s = service();
    for call in [
        s.clear_gateway_frame_log("0102030405060708").unwrap(),
        s.clear_device_frame_log("0102030405060708").unwrap(),
        s.clear_device_metrics("0102030405060708").unwrap(),
        s.clear_device_uplink_history("0102030405060708").unwrap(),
        s.list_tenant_devices(devices_request()).unwrap(),
        s.list_device_uplink_history(history_request()).unwrap(),
    ] {
        assert!(matches!(call.advance(Outcome::Failed), Call::Fail));
    }
}

#[test]
fn failure_on_the_way_fails_the_call() {
    let s = service();
    let call = granted(s.clear_device_metrics("0102030405060708").unwrap());
    let call = call.advance(Outcome::Scanned { next_cursor: 0, keys: vec!["k".to_string()] });
    assert!(matches!(call.advance(Outcome::Failed), Call::Fail));
    let call = granted(s.list_tenant_devices(devices_request()).unwrap());
    let call = call.advance(Outcome::Counted { total: 1 });
    assert!(matches!(call.advance(Outcome::Failed), Call::Fail));
}
