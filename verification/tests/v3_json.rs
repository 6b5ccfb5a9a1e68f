use alinkwise::gateway::backend::mqtt::{
    begin_downlink, configuration_payload, downlink_payload, Encoding, EventKind, MqttError,
};
use alinkwise::gateway::backend::registry::{
    gateway_is_json, gateway_is_v3_json, get_v3_downlink_id_by_token, register_v3_downlink_token,
    set_gateway_json, set_gateway_v3_json, Registry,
};
use alinkwise::gateway::backend::v3_json::{
    normalize_v3_downlink_json_payload, normalize_v3_downlink_tx_info,
    normalize_v3_gateway_config_json_payload, normalize_v3_json_payload,
};
use alinkwise::json::{rename_field, set_member, unset_member};

use serde_json::Value;

fn value(text: &str) -> Value {
    serde_json::from_str(text).unwrap()
}

fn normalized(kind: EventKind, text: &str, registry: &mut Registry) -> Value {
    let b = normalize_v3_json_payload(kind, text.as_bytes(), registry).unwrap();
    serde_json::from_slice(&b).unwrap()
}

fn downlink(text: &str) -> Value {
    let b = normalize_v3_downlink_json_payload(text.as_bytes()).unwrap();
    serde_json::from_slice(&b).unwrap()
}

#[test]
fn rename_moves_the_value() {
    let mut v = value(r#"{"a":[1,2],"c":null}"#);
    rename_field(&mut v, "a", "b");
    assert_eq!(v, value(r#"{"b":[1,2],"c":null}"#));
}

#[test]
fn rename_leaves_a_taken_name_alone() {
    let mut v = value(r#"{"a":1,"b":2}"#);
    rename_field(&mut v, "a", "b");
    assert_eq!(v, value(r#"{"a":1,"b":2}"#));
}

#[test]
fn rename_without_the_member_does_nothing() {
    let mut v = value(r#"{"c":1}"#);
    rename_field(&mut v, "a", "b");
    assert_eq!(v, value(r#"{"c":1}"#));
}

#[test]
fn rename_leaves_other_documents_alone() {
    for text in ["[1]", "\"a\"", "3", "null", "true"] {
        let mut v = value(text);
        rename_field(&mut v, "a", "b");
        assert_eq!(v, value(text));
    }
}

#[test]
fn rename_back_restores() {
    let mut v = value(r#"{"a":{"x":-1.5},"c":"t"}"#);
    rename_field(&mut v, "a", "b");
    rename_field(&mut v, "b", "a");
    assert_eq!(v, value(r#"{"a":{"x":-1.5},"c":"t"}"#));
}

#[test]
fn members_are_set_and_unset() {
    let mut v = value("{}");
    set_member(&mut v, "a", value("1"));
    set_member(&mut v, "b", value("2"));
    set_member(&mut v, "a", value("3"));
    assert_eq!(v, value(r#"{"a":3,"b":2}"#));
    unset_member(&mut v, "a");
    unset_member(&mut v, "z");
    assert_eq!(v, value(r#"{"b":2}"#));

    let mut v = value("[]");
    set_member(&mut v, "a", value("1"));
    unset_member(&mut v, "a");
    assert_eq!(v, value("[]"));
}

#[test]
fn uplink_gets_current_names() {
    let mut registry = Registry::new();
    let v = normalized(
        EventKind::Up,
        r#"{
            "phyPayload": "AQID",
            "txInfo": {
                "frequency": 868100000,
                "loRaModulationInfo": {"bandwidth": 125, "codeRate": "4/5"}
            },
            "rxInfo": {"gatewayID": "AQIDBAUGBwg=", "loRaSNR": 7.5, "uplinkID": "abc", "rssi": -60}
        }"#,
        &mut registry,
    );
    assert_eq!(
        v,
        value(
            r#"{
            "phyPayload": "AQID",
            "txInfoLegacy": {
                "frequency": 868100000,
                "loraModulationInfo": {"bandwidth": 125, "codeRateLegacy": "4/5"}
            },
            "rxInfoLegacy": {
                "gatewayId": "AQIDBAUGBwg=", "loraSnr": 7.5, "uplinkId": "abc", "rssi": -60
            }
        }"#
        )
    );
}

#[test]
fn uplink_under_current_names_keeps_them() {
    let mut registry = Registry::new();
    let text = r#"{"rxInfoLegacy":{"gatewayId":"a"},"rxInfo":{"gatewayID":"b"}}"#;
    assert_eq!(normalized(EventKind::Up, text, &mut registry), value(text));
}

#[test]
fn names_are_given_once() {
    let mut registry = Registry::new();
    let text = r#"{"txInfo":{"loRaModulationInfo":{"codeRate":"4/5"}},"rxInfo":{"loRaSNR":1}}"#;
    let once = normalize_v3_json_payload(EventKind::Up, text.as_bytes(), &mut registry).unwrap();
    let twice = normalize_v3_json_payload(EventKind::Up, &once, &mut registry).unwrap();
    assert_eq!(once, twice);
    assert_eq!(
        once,
        br#"{"rxInfoLegacy":{"loraSnr":1},"txInfoLegacy":{"loraModulationInfo":{"codeRateLegacy":"4/5"}}}"#.to_vec()
    );

    let text = r#"{"gatewayIdLegacy":"a","gatewayId":"b","downlinkId":9,"items":[{"phyPayload":"p",
        "txInfoLegacy":{"loraModulationInfo":{"codeRateLegacy":"4/5"},"immediatelyTimingInfo":{}}}]}"#;
    let once = normalize_v3_downlink_json_payload(text.as_bytes()).unwrap();
    assert_eq!(normalize_v3_downlink_json_payload(&once).unwrap(), once);

    let text = r#"{"gatewayIdLegacy":"a","gatewayId":"b","version":"1"}"#;
    let once = normalize_v3_gateway_config_json_payload(text.as_bytes()).unwrap();
    assert_eq!(normalize_v3_gateway_config_json_payload(&once).unwrap(), once);
}

#[test]
fn stats_get_current_names() {
    let mut registry = Registry::new();
    let v = normalized(
        EventKind::Stats,
        r#"{"gatewayID":"AQ==","rxPacketsReceived":5,"rxPacketsReceivedOK":4}"#,
        &mut registry,
    );
    assert_eq!(
        v,
        value(r#"{"gatewayIdLegacy":"AQ==","rxPacketsReceived":5,"rxPacketsReceivedOk":4}"#)
    );
}

#[test]
fn mesh_message_stays() {
    let mut registry = Registry::new();
    let text = r#"{"gatewayID":"AQ==","txInfo":{},"token":3}"#;
    register_v3_downlink_token(&mut registry, 3, 3);
    assert_eq!(normalized(EventKind::Mesh, text, &mut registry), value(text));
    assert_eq!(get_v3_downlink_id_by_token(&mut registry, 3), Some(3));
}

#[test]
fn acknowledgement_finds_its_downlink_once() {
    let mut registry = Registry::new();
    begin_downlink(&mut registry, Encoding::V3Json, 0x0001_2345);
    let v = normalized(
        EventKind::Ack,
        r#"{"gatewayID":"AQ==","token":9029,"error":""}"#,
        &mut registry,
    );
    assert_eq!(
        v,
        value(
            r#"{"gatewayIdLegacy":"AQ==","token":9029,"error":"",
                "downlinkId":74565,"items":[{"status":"OK"}]}"#
        )
    );
    let v = normalized(EventKind::Ack, r#"{"gatewayID":"AQ==","token":9029}"#, &mut registry);
    assert_eq!(v, value(r#"{"gatewayIdLegacy":"AQ==","token":9029}"#));
}

#[test]
fn acknowledgement_token_wraps_at_32_bits() {
    let mut registry = Registry::new();
    begin_downlink(&mut registry, Encoding::V3Json, 7);
    let v = normalized(EventKind::Ack, r#"{"token":4294967303}"#, &mut registry);
    assert_eq!(
        v,
        value(r#"{"token":4294967303,"downlinkId":7,"items":[{"status":"OK"}]}"#)
    );
}

#[test]
fn acknowledgement_token_is_a_whole_number() {
    let mut registry = Registry::new();
    begin_downlink(&mut registry, Encoding::V3Json, 7);
    for text in [r#"{"token":"7"}"#, r#"{"token":7.0}"#, r#"{"token":-7}"#, "{}", "[7]"] {
        assert_eq!(normalized(EventKind::Ack, text, &mut registry), value(text));
    }
    assert_eq!(get_v3_downlink_id_by_token(&mut registry, 7), Some(7));
}

#[test]
fn only_the_third_version_has_tokens() {
    let mut registry = Registry::new();
    begin_downlink(&mut registry, Encoding::Json, 7);
    begin_downlink(&mut registry, Encoding::Protobuf, 8);
    assert_eq!(get_v3_downlink_id_by_token(&mut registry, 7), None);
    assert_eq!(get_v3_downlink_id_by_token(&mut registry, 8), None);
}

#[test]
fn downlink_gets_old_names() {
    let v = downlink(
        r#"{
            "downlinkId": 258,
            "downlinkIdLegacy": "AQI=",
            "gatewayId": "0102030405060708",
            "gatewayIdLegacy": "AQIDBAUGBwg=",
            "items": [
                {
                    "phyPayload": "AQID",
                    "txInfo": {"frequency": 1},
                    "txInfoLegacy": {
                        "frequency": 868100000,
                        "loraModulationInfo": {"bandwidth": 125, "codeRateLegacy": "4/5"},
                        "immediatelyTimingInfo": {}
                    }
                },
                {"phyPayload": "BAUG"}
            ]
        }"#,
    );
    assert_eq!(
        v,
        value(
            r#"{
            "token": 258,
            "gatewayID": "AQIDBAUGBwg=",
            "gateway_id": "AQIDBAUGBwg=",
            "phyPayload": "AQID",
            "txInfo": {
                "gatewayID": "AQIDBAUGBwg=",
                "gateway_id": "AQIDBAUGBwg=",
                "frequency": 868100000,
                "modulation": "LORA",
                "loRaModulationInfo": {"bandwidth": 125, "codeRate": "4/5"},
                "immediatelyTimingInfo": {},
                "timing": "IMMEDIATELY"
            }
        }"#
        )
    );
}

#[test]
fn downlink_without_items_stays_flat() {
    assert_eq!(
        downlink(r#"{"items":[],"downlinkId":3,"gatewayId":"x"}"#),
        value(r#"{"items":[],"token":3}"#)
    );
    assert_eq!(downlink(r#"{"items":{"a":1}}"#), value(r#"{"items":{"a":1}}"#));
    assert_eq!(downlink("[]"), value("[]"));
}

#[test]
fn downlink_with_own_tx_info() {
    assert_eq!(
        downlink(r#"{"txInfo":{"timing":"DELAY","immediatelyTimingInfo":{}},"gatewayID":"g"}"#),
        value(
            r#"{"gatewayID":"g","gateway_id":"g","txInfo":{"gatewayID":"g","gateway_id":"g",
                "timing":"DELAY","immediatelyTimingInfo":{}}}"#
        )
    );
}

#[test]
fn tx_info_without_a_gateway() {
    let mut v = value(r#"{"fskModulationInfo":{}}"#);
    normalize_v3_downlink_tx_info(&mut v, &None);
    assert_eq!(v, value(r#"{"fskModulationInfo":{}}"#));

    let mut v = value("7");
    normalize_v3_downlink_tx_info(&mut v, &Some(value("1")));
    assert_eq!(v, value("7"));
}

#[test]
fn configuration_gets_old_names() {
    let b = normalize_v3_gateway_config_json_payload(
        br#"{"gatewayId":"01","gatewayIdLegacy":"AQ==","version":"abc"}"#,
    )
    .unwrap();
    assert_eq!(b, br#"{"gatewayID":"AQ==","version":"abc"}"#.to_vec());
}

#[test]
fn payload_goes_by_the_encoding() {
    let text = br#"{ "gatewayId": "01", "gatewayIdLegacy": "AQ==" }"#.to_vec();
    assert_eq!(configuration_payload(Encoding::Json, text.clone()).unwrap(), text);
    assert_eq!(configuration_payload(Encoding::Protobuf, text.clone()).unwrap(), text);
    assert_eq!(
        configuration_payload(Encoding::V3Json, text.clone()).unwrap(),
        br#"{"gatewayID":"AQ=="}"#.to_vec()
    );
    assert_eq!(downlink_payload(Encoding::Json, text.clone()).unwrap(), text);
    assert_eq!(downlink_payload(Encoding::Protobuf, text.clone()).unwrap(), text);
    assert_eq!(
        downlink_payload(Encoding::V3Json, text).unwrap(),
        br#"{"gatewayID":"AQ==","gateway_id":"AQ=="}"#.to_vec()
    );
}

#[test]
fn broken_json_is_refused() {
    let mut registry = Registry::new();
    register_v3_downlink_token(&mut registry, 1, 1);
    assert!(matches!(
        normalize_v3_json_payload(EventKind::Ack, b"{\"token\":1", &mut registry),
        Err(MqttError::Json(_))
    ));
    assert!(matches!(
        normalize_v3_downlink_json_payload(b"nonsense"),
        Err(MqttError::Json(_))
    ));
    assert!(matches!(
        normalize_v3_gateway_config_json_payload(b""),
        Err(MqttError::Json(_))
    ));
    assert!(matches!(
        downlink_payload(Encoding::V3Json, vec![0xff]),
        Err(MqttError::Json(_))
    ));
    assert!(matches!(
        configuration_payload(Encoding::V3Json, vec![0xff]),
        Err(MqttError::Json(_))
    ));
    assert_eq!(get_v3_downlink_id_by_token(&mut registry, 1), Some(1));
}

#[test]
fn tokens_go_by_their_low_bits() {
    let mut registry = Registry::new();
    register_v3_downlink_token(&mut registry, 0x0001_0005, 1);
    register_v3_downlink_token(&mut registry, 6, 2);
    register_v3_downlink_token(&mut registry, 0xffff_0005, 3);
    assert_eq!(get_v3_downlink_id_by_token(&mut registry, 5), Some(3));
    assert_eq!(get_v3_downlink_id_by_token(&mut registry, 0x0001_0005), None);
    assert_eq!(get_v3_downlink_id_by_token(&mut registry, 0x7777_0006), Some(2));
    assert_eq!(get_v3_downlink_id_by_token(&mut registry, 6), None);
}

#[test]
fn tokens_are_bounded() {
    let mut registry = Registry::new();
    for n in 0..0x2_0000u32 {
        register_v3_downlink_token(&mut registry, n, n);
    }
    let mut found = 0;
    for n in 0..0x2_0000u32 {
        if get_v3_downlink_id_by_token(&mut registry, n).is_some() {
            found += 1;
        }
    }
    assert_eq!(found, 0x1_0000);
}

#[test]
fn flags_are_kept_by_gateway() {
    let mut registry = Registry::new();
    assert!(!gateway_is_json(&registry, "a"));
    assert!(!gateway_is_v3_json(&registry, "a"));
    set_gateway_json(&mut registry, "a", true);
    assert!(gateway_is_json(&registry, "a"));
    assert!(!gateway_is_v3_json(&registry, "a"));
    assert!(!gateway_is_json(&registry, "b"));
    set_gateway_v3_json(&mut registry, "b", true);
    assert!(gateway_is_v3_json(&registry, "b"));
    set_gateway_json(&mut registry, "a", false);
    assert!(!gateway_is_json(&registry, "a"));
    assert!(gateway_is_v3_json(&registry, "b"));
}
