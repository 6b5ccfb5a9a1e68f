use alinkwise::gateway::backend::mqtt::{
    accept, begin_downlink, broker_action, client_id, command_topic,
    command_topic_may_include_itself, connection, event_kind, message_callback,
    payload_is_json, payload_is_v3_json, stats_metadata, subscription_topic, BrokerAction,
    BrokerEvent, Decode, Encoding, EventKind, GatewayBackendMqtt, MqttBackend, MqttError, QoS, Tls,
};
use alinkwise::gateway::backend::registry::{
    gateway_is_json, gateway_is_v3_json, get_v3_downlink_id_by_token, set_gateway_json,
    set_gateway_v3_json, Registry,
};

fn settings() -> GatewayBackendMqtt {
    GatewayBackendMqtt {
        topic_prefix: "".to_string(),
        event_topic: "".to_string(),
        command_topic: "".to_string(),
        share_name: "chirpstack".to_string(),
        server: "tcp://127.0.0.1:1883".to_string(),
        client_id: "".to_string(),
        username: "".to_string(),
        password: "".to_string(),
        qos: 0,
        ca_cert: "".to_string(),
        tls_cert: "".to_string(),
        tls_key: "".to_string(),
        v4_migrate: true,
    }
}

fn backend(conf: &GatewayBackendMqtt) -> MqttBackend {
    MqttBackend::new("eu868", conf).unwrap().0
}

#[test]
fn default_topics() {
    let conf = settings();
    let (b, c) = MqttBackend::new("eu868", &conf).unwrap();
    assert_eq!(
        b.get_command_topic("0102030405060708", "down").unwrap(),
        "gateway/0102030405060708/command/down"
    );
    assert_eq!(c.event_topic, "gateway/+/event/+");
    assert_eq!(c.share_name, "chirpstack");
    assert_eq!(b.region_config_id(), "eu868");
    assert!(b.v4_migrate());
}

#[test]
fn prefixed_topics() {
    let mut conf = settings();
    conf.topic_prefix = "eu868".to_string();
    let (b, c) = MqttBackend::new("eu868", &conf).unwrap();
    assert_eq!(
        b.get_command_topic("0102", "config").unwrap(),
        "eu868/gateway/0102/command/config"
    );
    assert_eq!(c.event_topic, "eu868/gateway/+/event/+");
}

#[test]
fn topics_that_are_set_have_no_prefix() {
    let mut conf = settings();
    conf.topic_prefix = "eu868".to_string();
    conf.event_topic = "in/#".to_string();
    conf.command_topic = "out/{{ command }}/{{ gateway_id }}".to_string();
    let (b, c) = MqttBackend::new("eu868", &conf).unwrap();
    assert_eq!(b.get_command_topic("0102", "down").unwrap(), "out/down/0102");
    assert_eq!(c.event_topic, "in/#");
}

#[test]
fn command_topic_has_to_be_a_template() {
    let mut conf = settings();
    conf.command_topic = "gateway/{{ gateway_id".to_string();
    assert!(matches!(MqttBackend::new("eu868", &conf), Err(MqttError::Template(_))));
}

#[test]
fn command_topic_has_to_render() {
    let mut conf = settings();
    conf.command_topic = "{{> missing}}".to_string();
    assert!(!command_topic_may_include_itself(&conf));
    let b = backend(&conf);
    assert!(matches!(b.get_command_topic("01", "down"), Err(MqttError::Render(_))));
    let registry = Registry::new();
    assert!(matches!(b.send_downlink(&registry, "01"), Err(MqttError::Render(_))));
    assert!(matches!(b.send_configuration(&registry, "01"), Err(MqttError::Render(_))));
    conf.command_topic = "{{> command_topic}}".to_string();
    assert!(!command_topic_may_include_itself(&conf));
    assert!(matches!(
        backend(&conf).get_command_topic("01", "down"),
        Err(MqttError::Render(_))
    ));
}

#[test]
fn command_topic_has_to_end() {
    let mut conf = settings();
    assert!(!command_topic_may_include_itself(&conf));
    conf.topic_prefix = "\u{e9}>#".to_string();
    assert!(!command_topic_may_include_itself(&conf));
    conf.topic_prefix = "{{> command_topic}}#".to_string();
    assert!(command_topic_may_include_itself(&conf));
    conf.command_topic = "{{#if command}}x{{/if}}".to_string();
    assert!(!command_topic_may_include_itself(&conf));
    assert_eq!(backend(&conf).get_command_topic("01", "down").unwrap(), "x");
    conf.command_topic = "a>b/{{#if gateway_id}}{{command}}{{/if}}".to_string();
    assert!(!command_topic_may_include_itself(&conf));
    assert_eq!(backend(&conf).get_command_topic("01", "down").unwrap(), "a>b/down");
    conf.command_topic = "{{{{raw}}}}{{x}}{{{{/raw}}}}{{command}}".to_string();
    assert!(!command_topic_may_include_itself(&conf));
    assert_eq!(backend(&conf).get_command_topic("01", "down").unwrap(), "{{x}}down");
    for template in [
        "{{#if command}}{{> command_topic}}{{/if}}",
        "{{{{raw}}}}x{{{{/raw}}}}{{> command_topic}}",
        "{{{{raw}}}}x{{{{/raw}}}}{{~ \n> command_topic}}",
        "{{#> command_topic}}{{/command_topic}}",
        "{{ # > command_topic}}{{/command_topic}}",
        "{{#if x}}{{/if}}{{> (lookup this \"gateway_id\")}}",
        "{{#*inline \"a\"}}{{> a}}{{/inline}}{{> a}}",
        "{{#*inline \"a\"}}{{> a}}{{~ / ~}}{{> a}}",
        "{{#*inline \"a\"}}{{> b}}{{/inline}}{{#*inline \"b\"}}{{> a}}{{/inline}}{{> a}}",
    ] {
        conf.command_topic = template.to_string();
        assert!(command_topic_may_include_itself(&conf), "{}", template);
    }
    for (template, topic) in [
        ("{{#*inline \"p\"}}x{{/inline}}{{> p}}", "x"),
        ("{{#*inline \"p\"}}{{command}}{{/inline}}{{#if command}}{{> p}}/{{> p}}{{/if}}", "down/down"),
        ("{{#> other}}{{gateway_id}}{{/other}}", "01"),
        ("{{#if nothing}}{{> other}}{{/if}}y", "y"),
        ("{{{{raw}}}}x{{{{/raw}}}}{{#> other}}z{{/other}}", "xz"),
    ] {
        conf.command_topic = template.to_string();
        assert!(!command_topic_may_include_itself(&conf), "{}", template);
        assert_eq!(backend(&conf).get_command_topic("01", "down").unwrap(), topic);
    }
    for template in ["{{> x", "{{>}}", "{ {> x}}#", "{{x> y}}#", "{{{", "#", "{{{{"] {
        conf.command_topic = template.to_string();
        assert!(!command_topic_may_include_itself(&conf), "{}", template);
    }
}

#[test]
fn topic_can_be_handed_over() {
    let mut conf = settings();
    conf.qos = 2;
    conf.command_topic = "{{#if nothing}}{{> command_topic}}{{/if}}".to_string();
    assert_eq!(command_topic(&conf), conf.command_topic);
    let b = backend(&conf);
    let mut registry = Registry::new();
    set_gateway_json(&mut registry, "01", true);
    set_gateway_v3_json(&mut registry, "01", true);
    let out = b.send_downlink_to(&registry, "01", "t".to_string());
    assert_eq!(out.topic, "t");
    assert_eq!(out.qos, QoS::ExactlyOnce);
    assert!(!out.retain);
    assert_eq!(out.encoding, Encoding::V3Json);
    assert!(out.migrate);
    let out = b.send_configuration_to(&registry, "02", "u".to_string());
    assert_eq!(out.topic, "u");
    assert_eq!(out.qos, QoS::ExactlyOnce);
    assert!(!out.retain);
    assert_eq!(out.encoding, Encoding::Protobuf);
    assert!(!out.migrate);
}

#[test]
fn command_topic_takes_its_variables_by_name() {
    let mut conf = settings();
    conf.command_topic = "{{command}}|{{gateway_id}}|{{other}}".to_string();
    assert_eq!(backend(&conf).get_command_topic("g", "c").unwrap(), "c|g|");
}

#[test]
fn quality_of_service() {
    let mut conf = settings();
    assert_eq!(backend(&conf).qos(), QoS::AtMostOnce);
    conf.qos = 1;
    assert_eq!(backend(&conf).qos(), QoS::AtLeastOnce);
    conf.qos = 2;
    assert_eq!(backend(&conf).qos(), QoS::ExactlyOnce);
    conf.qos = 3;
    assert!(matches!(
        MqttBackend::new("eu868", &conf),
        Err(MqttError::InvalidQos { qos: 3 })
    ));
}

#[test]
fn client_id_is_set_or_random() {
    let mut conf = settings();
    assert_eq!(client_id(&conf, 0), "0");
    assert_eq!(client_id(&conf, 0xdead_beef), "deadbeef");
    assert_eq!(client_id(&conf, u64::MAX), "ffffffffffffffff");
    let (_, a) = MqttBackend::new("eu868", &conf).unwrap();
    let (_, b) = MqttBackend::new("eu868", &conf).unwrap();
    let (_, c) = MqttBackend::new("eu868", &conf).unwrap();
    assert!(a.url.starts_with("tcp://127.0.0.1:1883?client_id="));
    assert!(a.url != b.url || b.url != c.url);
    conf.client_id = "me".to_string();
    assert_eq!(client_id(&conf, 5), "me");
    let (_, a) = MqttBackend::new("eu868", &conf).unwrap();
    assert_eq!(a.url, "tcp://127.0.0.1:1883?client_id=me");
}

#[test]
fn credentials_where_there_are_any() {
    let mut conf = settings();
    assert_eq!(connection(&conf, "x").credentials, None);
    conf.password = "p".to_string();
    assert_eq!(
        connection(&conf, "x").credentials,
        Some(("".to_string(), "p".to_string()))
    );
    conf.username = "u".to_string();
    assert_eq!(
        connection(&conf, "x").credentials,
        Some(("u".to_string(), "p".to_string()))
    );
}

#[test]
fn security_where_there_are_certificates() {
    let mut conf = settings();
    assert!(matches!(connection(&conf, "x").tls, Tls::Off));
    conf.ca_cert = "ca".to_string();
    match connection(&conf, "x").tls {
        Tls::Server { ca_cert } => assert_eq!(ca_cert, Some("ca".to_string())),
        _ => panic!(),
    }
    conf.tls_key = "key".to_string();
    match connection(&conf, "x").tls {
        Tls::Mutual { ca_cert, cert, key } => {
            assert_eq!(ca_cert, Some("ca".to_string()));
            assert_eq!(cert, "");
            assert_eq!(key, "key");
        }
        _ => panic!(),
    }
    conf.ca_cert = "".to_string();
    conf.tls_cert = "cert".to_string();
    match connection(&conf, "x").tls {
        Tls::Mutual { ca_cert, cert, key } => {
            assert_eq!(ca_cert, None);
            assert_eq!(cert, "cert");
            assert_eq!(key, "key");
        }
        _ => panic!(),
    }
}

#[test]
fn downlink_goes_out_as_the_gateway_speaks() {
    let conf = settings();
    let b = backend(&conf);
    let mut registry = Registry::new();

    let out = b.send_downlink(&registry, "01").unwrap();
    assert_eq!(out.topic, "gateway/01/command/down");
    assert_eq!(out.encoding, Encoding::Protobuf);
    assert!(!out.migrate);

    set_gateway_json(&mut registry, "01", true);
    let out = b.send_downlink(&registry, "01").unwrap();
    assert_eq!(out.encoding, Encoding::Json);
    assert!(!out.migrate);

    set_gateway_v3_json(&mut registry, "01", true);
    let out = b.send_downlink(&registry, "01").unwrap();
    assert_eq!(out.encoding, Encoding::V3Json);
    assert!(out.migrate);
    let out = b.send_configuration(&registry, "01").unwrap();
    assert_eq!(out.topic, "gateway/01/command/config");
    assert_eq!(out.encoding, Encoding::V3Json);
    assert!(!out.migrate);

    set_gateway_json(&mut registry, "01", false);
    let out = b.send_downlink(&registry, "01").unwrap();
    assert_eq!(out.encoding, Encoding::Protobuf);
    assert!(out.migrate);

    let mut conf = settings();
    conf.v4_migrate = false;
    let b = backend(&conf);
    assert!(!b.send_downlink(&registry, "01").unwrap().migrate);
}

#[test]
fn payloads_are_told_apart() {
    assert!(payload_is_json(br#"{"gatewayId":"01"}"#));
    assert!(!payload_is_v3_json(br#"{"gatewayId":"01"}"#));
    assert!(payload_is_json(br#"{"gatewayID":"01"}"#));
    assert!(payload_is_v3_json(br#"{"gatewayID":"01"}"#));
    assert!(!payload_is_json(br#"{"txInfo":{}}"#));
    assert!(payload_is_v3_json(br#"{"txInfo":{}}"#));
    assert!(payload_is_v3_json(br#"{"rxInfo":{}}"#));
    assert!(!payload_is_v3_json(br#"{"rxInfoLegacy":{}} txInfo rxInfo"#));
    assert!(!payload_is_json(b""));
    assert!(!payload_is_v3_json(b""));
    assert!(!payload_is_json(b"gatewayI"));
    assert!(payload_is_json(b"\xff\xc3gatewayId\xff"));
}

#[test]
fn kind_is_in_the_topic() {
    assert_eq!(event_kind(b"gateway/01/event/up"), Some(EventKind::Up));
    assert_eq!(event_kind(b"eu868/gateway/01/event/stats"), Some(EventKind::Stats));
    assert_eq!(event_kind(b"/ack"), Some(EventKind::Ack));
    assert_eq!(event_kind(b"\xff/mesh"), Some(EventKind::Mesh));
    assert_eq!(event_kind(b"gateway/01/event/conn"), None);
    assert_eq!(event_kind(b"up"), None);
    assert_eq!(event_kind(b""), None);
    assert_eq!(EventKind::Up.label(), "up");
    assert_eq!(EventKind::Stats.label(), "stats");
    assert_eq!(EventKind::Ack.label(), "ack");
    assert_eq!(EventKind::Mesh.label(), "mesh");
}

#[test]
fn protobuf_message_is_decoded_as_it_is() {
    let mut registry = Registry::new();
    let m = message_callback(true, b"gateway/01/event/up", &[1, 2, 3], &mut registry).unwrap();
    assert_eq!(m.kind, EventKind::Up);
    assert!(matches!(m.decode, Decode::Protobuf));
    assert!(!m.json && !m.v3_json && !m.migrate);
}

#[test]
fn json_message_is_decoded_as_it_is() {
    let mut registry = Registry::new();
    let m = message_callback(true, b"x/stats", br#"{"gatewayId":"01"}"#, &mut registry).unwrap();
    assert_eq!(m.kind, EventKind::Stats);
    assert!(matches!(m.decode, Decode::Json));
    assert!(m.json && !m.v3_json && !m.migrate);
}

#[test]
fn third_version_message_is_renamed_and_migrated() {
    let mut registry = Registry::new();
    let payload = br#"{"gatewayID":"AQ==","rxPacketsReceivedOK":1}"#;
    let m = message_callback(true, b"x/stats", payload, &mut registry).unwrap();
    match m.decode {
        Decode::Normalized(text) => {
            assert_eq!(text, br#"{"gatewayIdLegacy":"AQ==","rxPacketsReceivedOk":1}"#.to_vec())
        }
        _ => panic!(),
    }
    assert!(m.json && m.v3_json && m.migrate);
    assert!(!message_callback(false, b"x/stats", payload, &mut registry).unwrap().migrate);
}

#[test]
fn binary_message_with_an_old_name_is_migrated() {
    let mut registry = Registry::new();
    let m = message_callback(true, b"x/up", br#"\x0a"txInfo""#, &mut registry).unwrap();
    assert!(matches!(m.decode, Decode::Protobuf));
    assert!(!m.json && m.v3_json && m.migrate);
}

#[test]
fn mesh_message_knows_no_third_version() {
    let mut registry = Registry::new();
    let m = message_callback(true, b"x/mesh", br#"{"gatewayID":"01"}"#, &mut registry).unwrap();
    assert_eq!(m.kind, EventKind::Mesh);
    assert!(matches!(m.decode, Decode::Json));
    assert!(!m.migrate);
    assert_eq!(accept(&mut registry, &m, Some("01")), None);
    assert!(!gateway_is_json(&registry, "01"));
}

#[test]
fn unknown_kind_is_refused() {
    let mut registry = Registry::new();
    assert!(matches!(
        message_callback(true, b"x/conn", b"{}", &mut registry),
        Err(MqttError::UnknownEventType)
    ));
}

#[test]
fn broken_message_of_the_third_version_is_refused() {
    let mut registry = Registry::new();
    assert!(matches!(
        message_callback(true, b"x/up", b"{\"gatewayID\"", &mut registry),
        Err(MqttError::Json(_))
    ));
}

#[test]
fn acknowledgement_uses_its_token_up() {
    let mut registry = Registry::new();
    begin_downlink(&mut registry, Encoding::V3Json, 0x0007_0001);
    let payload = br#"{"gatewayID":"AQ==","token":1}"#;
    let m = message_callback(true, b"x/ack", payload, &mut registry).unwrap();
    match m.decode {
        Decode::Normalized(text) => assert_eq!(
            text,
            br#"{"downlinkId":458753,"gatewayIdLegacy":"AQ==","items":[{"status":"OK"}],"token":1}"#
                .to_vec()
        ),
        _ => panic!(),
    }
    assert_eq!(get_v3_downlink_id_by_token(&mut registry, 1), None);
}

#[test]
fn accepted_message_decides_how_the_gateway_is_answered() {
    let b = backend(&settings());
    let mut registry = Registry::new();
    let payload = br#"{"rxInfo":{"gatewayID":"AQ=="}}"#;
    let m = message_callback(true, b"x/up", payload, &mut registry).unwrap();
    let stamp = accept(&mut registry, &m, Some("01")).unwrap();
    assert!(stamp.seconds > 1_600_000_000);
    assert!(gateway_is_json(&registry, "01") && gateway_is_v3_json(&registry, "01"));
    assert!(!gateway_is_json(&registry, "02"));
    assert_eq!(b.send_downlink(&registry, "01").unwrap().encoding, Encoding::V3Json);
    assert_eq!(b.send_downlink(&registry, "02").unwrap().encoding, Encoding::Protobuf);

    let m = message_callback(true, b"x/stats", b"\x01", &mut registry).unwrap();
    assert_eq!(accept(&mut registry, &m, Some("01")), None);
    assert!(!gateway_is_json(&registry, "01") && !gateway_is_v3_json(&registry, "01"));

    let m = message_callback(true, b"x/up", payload, &mut registry).unwrap();
    assert_eq!(accept(&mut registry, &m, None), None);
    assert!(!gateway_is_json(&registry, "01"));
}

#[test]
fn metadata_of_statistics() {
    assert_eq!(
        stats_metadata("eu868_0", "EU868"),
        vec![
            ("region_config_id".to_string(), "eu868_0".to_string()),
            ("region_common_name".to_string(), "EU868".to_string()),
        ]
    );
}

#[test]
fn subscriptions() {
    assert_eq!(
        subscription_topic("gateway/+/event/+", "cs", true),
        "$share/cs/gateway/+/event/+"
    );
    assert_eq!(subscription_topic("gateway/+/event/+", "cs", false), "gateway/+/event/+");
}

#[test]
fn events_at_the_connection() {
    let connected = |success, shared_subscriptions| {
        broker_action(BrokerEvent::Connected { success, shared_subscriptions })
    };
    assert_eq!(broker_action(BrokerEvent::Publish), BrokerAction::HandleMessage);
    assert_eq!(broker_action(BrokerEvent::Other), BrokerAction::Continue);
    assert_eq!(broker_action(BrokerEvent::Error), BrokerAction::Pause);
    assert_eq!(connected(false, None), BrokerAction::Pause);
    assert_eq!(connected(true, None), BrokerAction::Subscribe { shared: true });
    assert_eq!(connected(true, Some(None)), BrokerAction::Subscribe { shared: true });
    assert_eq!(connected(true, Some(Some(1))), BrokerAction::Subscribe { shared: true });
    assert_eq!(connected(true, Some(Some(0))), BrokerAction::Subscribe { shared: false });
    assert_eq!(connected(true, Some(Some(2))), BrokerAction::Subscribe { shared: false });
}
