use alinkwise::alinkwise::api::{
    to_tenant_device_list_item, to_tenant_device_list_item_at, RequestOnlineState, RequestOrderBy,
};
use alinkwise::alinkwise::device_query::{
    get_count, is_active, is_active_at, list, Column, Condition, Database, DeviceClass, Filters,
    Nulls, OnlineState, OrderBy, OrderKey, TenantDeviceListItem,
};
use alinkwise::eui64::Eui64;
use alinkwise::tags::Tags;
use alinkwise::time::Timestamp;

use bigdecimal::BigDecimal;

fn at(seconds: i64, nanos: u32) -> Timestamp {
    Timestamp { seconds, nanos }
}

fn device(last_seen_at: Option<Timestamp>, uplink_interval: i32, is_disabled: bool) -> TenantDeviceListItem {
    TenantDeviceListItem {
        dev_eui: Eui64 { value: 0x0102_0304_0506_0708 },
        name: "name".to_string(),
        description: "description".to_string(),
        application_id: 0x550e8400_e29b_41d4_a716_446655440000,
        application_name: "application".to_string(),
        device_profile_id: 1,
        device_profile_name: "profile".to_string(),
        created_at: at(1, 2),
        updated_at: at(3, 4),
        last_seen_at,
        margin: Some(-3),
        external_power_source: true,
        battery_level: Some(BigDecimal::from(50)),
        tags: tags(&[("k", "v")]),
        join_eui: Eui64 { value: 0xffff_ffff_ffff_fffe },
        is_disabled,
        class_enabled: DeviceClass::C,
        uplink_interval,
    }
}

fn filters() -> Filters {
    Filters {
        tenant_id: 1,
        application_id: None,
        device_profile_id: None,
        search: None,
        online_state: OnlineState::All,
        tags: Tags::new(),
    }
}

fn tags(pairs: &[(&str, &str)]) -> Tags {
    pairs.iter().fold(Tags::new(), |tags, (k, v)| tags.with(k.to_string(), v.to_string()))
}

#[test]
fn no_key_occurs_twice() {
    let t = tags(&[("a", "1"), ("b", "2"), ("a", "3")]);
    assert_eq!(
        *t.pairs(),
        vec![
            ("a".to_string(), "3".to_string()),
            ("b".to_string(), "2".to_string()),
        ]
    );
    assert_eq!(t.clone().pairs(), t.pairs());
    assert!(Tags::new().pairs().is_empty());
}

fn shown(conditions: &[Condition]) -> Vec<String> {
    conditions.iter().map(|c| format!("{:?}", c)).collect()
}

#[test]
fn active_for_one_and_a_half_intervals() {
    let d = device(Some(at(1000, 0)), 10, false);
    assert!(is_active_at(&d, at(1000, 0)));
    assert!(is_active_at(&d, at(1015, 0)));
    assert!(!is_active_at(&d, at(1015, 1)));
    assert!(is_active_at(&d, at(900, 0)));
    let d = device(Some(at(1000, 0)), 3, false);
    assert!(is_active_at(&d, at(1004, 500_000_000)));
    assert!(!is_active_at(&d, at(1004, 500_000_001)));
}

#[test]
fn negative_interval() {
    let d = device(Some(at(1000, 0)), -1, false);
    assert!(!is_active_at(&d, at(1000, 0)));
    assert!(is_active_at(&d, at(998, 500_000_000)));
}

#[test]
fn leap_second_counts_as_the_end_of_its_second() {
    let d = device(Some(at(59, 1_500_000_000)), 0, false);
    assert!(is_active_at(&d, at(59, 999_999_999)));
    assert!(!is_active_at(&d, at(60, 0)));
}

#[test]
fn disabled_or_never_seen_is_not_active() {
    assert!(!is_active_at(&device(Some(at(1000, 0)), 10, true), at(1000, 0)));
    assert!(!is_active_at(&device(None, 10, false), at(1000, 0)));
    assert!(!is_active(&device(Some(at(i64::MAX, 0)), i32::MAX, true)));
    assert!(!is_active(&device(None, i32::MAX, false)));
}

#[test]
fn active_now() {
    assert!(is_active(&device(Some(at(1 << 40, 0)), 0, false)));
    assert!(!is_active(&device(Some(at(1_000_000_000, 0)), 60, false)));
}

#[test]
fn tenant_alone() {
    for db in [Database::Postgres, Database::Sqlite] {
        assert_eq!(shown(&get_count(db, &filters()).conditions), ["Tenant(1)"]);
    }
}

#[test]
fn all_conditions_in_postgres() {
    let f = Filters {
        application_id: Some(2),
        device_profile_id: Some(3),
        search: Some("se".to_string()),
        online_state: OnlineState::Online,
        tags: tags(&[("a", "b"), ("c", "d")]),
        ..filters()
    };
    assert_eq!(
        shown(&get_count(Database::Postgres, &f).conditions),
        [
            "Tenant(1)",
            "Application(2)",
            "DeviceProfile(3)",
            "NameLike { pattern: \"%se%\", ignore_case: true }",
            "SeenLately",
            "Tags([(\"a\", \"b\"), (\"c\", \"d\")])",
        ]
    );
    assert_eq!(
        shown(&get_count(Database::Sqlite, &f).conditions),
        [
            "Tenant(1)",
            "Application(2)",
            "DeviceProfile(3)",
            "NameLike { pattern: \"%se%\", ignore_case: false }",
            "SeenLately",
            "Tag { key: \"a\", value: \"b\" }",
            "Tag { key: \"c\", value: \"d\" }",
        ]
    );
}

#[test]
fn count_and_list_select_alike() {
    let f = Filters { search: Some("x".to_string()), online_state: OnlineState::Offline, ..filters() };
    let c = get_count(Database::Sqlite, &f);
    let l = list(Database::Sqlite, 10, 20, &f, OrderBy::Name, false);
    assert_eq!(shown(&c.conditions), shown(&l.conditions));
    assert_eq!((l.limit, l.offset), (10, 20));
}

#[test]
fn condition_of_each_state() {
    let condition = |online_state| {
        shown(&get_count(Database::Postgres, &Filters { online_state, ..filters() }).conditions)[1..]
            .to_vec()
    };
    assert!(condition(OnlineState::All).is_empty());
    assert_eq!(condition(OnlineState::Online), ["SeenLately"]);
    assert_eq!(condition(OnlineState::Offline), ["SilentTooLong"]);
    assert_eq!(condition(OnlineState::NeverSeen), ["NeverSeen"]);
    assert_eq!(condition(OnlineState::Disabled), ["Disabled"]);
}

#[test]
fn fixed_sql_of_conditions() {
    assert_eq!(
        Condition::SeenLately.sql(Database::Postgres).unwrap(),
        "device.is_disabled = false and device.last_seen_at is not null and (now() - (make_interval(secs => device_profile.uplink_interval) * 1.5)) <= device.last_seen_at"
    );
    assert_eq!(
        Condition::SilentTooLong.sql(Database::Postgres).unwrap(),
        "device.is_disabled = false and device.last_seen_at is not null and (now() - (make_interval(secs => device_profile.uplink_interval) * 1.5)) > device.last_seen_at"
    );
    assert_eq!(
        Condition::SeenLately.sql(Database::Sqlite).unwrap(),
        "device.is_disabled = false and device.last_seen_at is not null and (unixepoch('now') - unixepoch(device.last_seen_at)) <= (device_profile.uplink_interval * 1.5)"
    );
    assert_eq!(
        Condition::SilentTooLong.sql(Database::Sqlite).unwrap(),
        "device.is_disabled = false and device.last_seen_at is not null and (unixepoch('now') - unixepoch(device.last_seen_at)) > (device_profile.uplink_interval * 1.5)"
    );
    assert_eq!(
        Condition::Tag { key: "k".to_string(), value: "v".to_string() }.sql(Database::Sqlite).unwrap(),
        "device.tags->>'k' ="
    );
    assert_eq!(Condition::Disabled.sql(Database::Postgres), None);
    assert_eq!(Condition::NeverSeen.sql(Database::Sqlite), None);
    assert_eq!(Condition::Tenant(1).sql(Database::Sqlite), None);
}

#[test]
fn order_by_a_column() {
    for (order_by, column) in [
        (OrderBy::Name, Column::DeviceName),
        (OrderBy::DevEui, Column::DevEui),
        (OrderBy::DeviceProfileName, Column::DeviceProfileName),
        (OrderBy::ApplicationName, Column::ApplicationName),
        (OrderBy::CreatedAt, Column::CreatedAt),
        (OrderBy::UpdatedAt, Column::UpdatedAt),
    ] {
        for db in [Database::Postgres, Database::Sqlite] {
            for descending in [false, true] {
                assert_eq!(
                    list(db, 1, 0, &filters(), order_by, descending).order,
                    vec![OrderKey { column, descending, nulls: Nulls::Default }]
                );
            }
        }
    }
}

#[test]
fn order_by_last_seen() {
    let name = OrderKey { column: Column::DeviceName, descending: false, nulls: Nulls::Default };
    for (db, descending, nulls) in [
        (Database::Postgres, true, Nulls::Last),
        (Database::Postgres, false, Nulls::First),
        (Database::Sqlite, true, Nulls::Default),
        (Database::Sqlite, false, Nulls::Default),
    ] {
        assert_eq!(
            list(db, 1, 0, &filters(), OrderBy::LastSeenAt, descending).order,
            vec![OrderKey { column: Column::LastSeenAt, descending, nulls }, name]
        );
    }
}

#[test]
fn device_of_an_answer() {
    let d = to_tenant_device_list_item_at(device(Some(at(1000, 0)), 10, false), at(1001, 0));
    assert_eq!(d.dev_eui, "0102030405060708");
    assert_eq!(d.name, "name");
    assert_eq!(d.description, "description");
    assert_eq!(d.application_id, "550e8400-e29b-41d4-a716-446655440000");
    assert_eq!(d.application_name, "application");
    assert_eq!(d.device_profile_id, "00000000-0000-0000-0000-000000000001");
    assert_eq!(d.device_profile_name, "profile");
    assert_eq!(d.created_at, at(1, 2));
    assert_eq!(d.updated_at, at(3, 4));
    assert_eq!(d.last_seen_at, Some(at(1000, 0)));
    let status = d.device_status.unwrap();
    assert_eq!(status.margin, -3);
    assert!(status.external_power_source);
    assert_eq!(status.battery_level, Some(BigDecimal::from(50)));
    assert_eq!(*d.tags.pairs(), vec![("k".to_string(), "v".to_string())]);
    assert_eq!(d.join_eui, "fffffffffffffffe");
    assert!(!d.is_disabled);
    assert!(d.is_active);
    assert_eq!(d.class_enabled, DeviceClass::C);
}

#[test]
fn device_without_a_margin_has_no_status() {
    let mut item = device(None, 10, true);
    item.margin = None;
    let d = to_tenant_device_list_item(item);
    assert!(d.device_status.is_none());
    assert!(d.is_disabled);
    assert!(!d.is_active);
}

#[test]
fn states_and_orders_of_requests() {
    for (request, state) in [
        (RequestOnlineState::All, OnlineState::All),
        (RequestOnlineState::Online, OnlineState::Online),
        (RequestOnlineState::Offline, OnlineState::Offline),
        (RequestOnlineState::NeverSeen, OnlineState::NeverSeen),
        (RequestOnlineState::Disabled, OnlineState::Disabled),
    ] {
        assert_eq!(OnlineState::from(request), state);
    }
    for (request, order_by) in [
        (RequestOrderBy::Name, OrderBy::Name),
        (RequestOrderBy::DevEui, OrderBy::DevEui),
        (RequestOrderBy::LastSeenAt, OrderBy::LastSeenAt),
        (RequestOrderBy::DeviceProfileName, OrderBy::DeviceProfileName),
        (RequestOrderBy::ApplicationName, OrderBy::ApplicationName),
        (RequestOrderBy::CreatedAt, OrderBy::CreatedAt),
        (RequestOrderBy::UpdatedAt, OrderBy::UpdatedAt),
    ] {
        assert_eq!(OrderBy::from(request), order_by);
    }
}
