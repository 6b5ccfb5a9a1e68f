//! Messages from and for gateways: what they are taken for, and how they are answered.
use vstd::prelude::*;
use vstd::string::{is_ascii_spec_bytes, StringSliceAdditionalSpecFns};

use crate::gateway::backend::mqtt::{
    broker_action, client_id, client_id_of, command_topic, connection, connects, event_kind,
    message_callback, payload_is_json, payload_is_v3_json, stats_metadata, subscription_topic,
    BrokerAction, BrokerEvent, Connection, Decode, EventKind, GatewayBackendMqtt, Incoming,
    MqttBackend, MqttError, Outgoing, QoS, Tls, PAUSE_SECONDS,
};
use crate::gateway::backend::registry::Registry;
use crate::gateway::backend::templates::{compiles, rendered};
use crate::gateway::backend::v3_json::event_document;
use crate::json::{parsed, written, Json};
use crate::laws::v3_json::{current_event, lemma_current_event, lemma_token_bits, tokens_left};
use crate::text::{contains, ends_with, has_suffix, occurs, occurs_at, to_hex};

verus! {

/// Whether `needle` stands somewhere in `b`: something comes before it, and something behind.
pub open spec fn is_within(b: Seq<u8>, needle: Seq<u8>) -> bool {
    exists|before: Seq<u8>, after: Seq<u8>| b == #[trigger] (before + needle + after)
}

/// Whether `b` is something with `suffix` behind it.
pub open spec fn is_end_of(b: Seq<u8>, suffix: Seq<u8>) -> bool {
    exists|before: Seq<u8>| b == #[trigger] (before + suffix)
}

proof fn lemma_within(b: Seq<u8>, needle: Seq<u8>)
    ensures
        occurs(b, needle) <==> is_within(b, needle),
{
    if occurs(b, needle) {
        let i = choose|i: int| occurs_at(b, needle, i);
        let (before, after) = (b.take(i), b.skip(i + needle.len()));
        assert(b =~= before + needle + after) by {
            assert(b.subrange(i, i + needle.len()) == needle);
            assert forall|k: int| i <= k < i + needle.len() implies b[k] == needle[k - i] by {
                assert(b.subrange(i, i + needle.len())[k - i] == needle[k - i]);
            }
        }
    }
    if is_within(b, needle) {
        let (before, after) = choose|before: Seq<u8>, after: Seq<u8>|
            b == #[trigger] (before + needle + after);
        let i: int = before.len() as int;
        assert(b.subrange(i, i + needle.len()) =~= needle);
        assert(occurs_at(b, needle, i));
    }
}

proof fn lemma_end(b: Seq<u8>, suffix: Seq<u8>)
    ensures
        has_suffix(b, suffix) <==> is_end_of(b, suffix),
{
    if has_suffix(b, suffix) {
        let i = b.len() - suffix.len();
        assert(b =~= b.take(i) + suffix) by {
            assert forall|k: int| i <= k < b.len() implies b[k] == suffix[k - i] by {
                assert(b.subrange(i, b.len() as int)[k - i] == suffix[k - i]);
            }
        }
    }
    if is_end_of(b, suffix) {
        let before = choose|before: Seq<u8>| b == #[trigger] (before + suffix);
        assert(b.subrange(b.len() - suffix.len(), b.len() as int) =~= suffix);
    }
}

/// What it is to contain.
pub proof fn law_contains(b: &[u8], needle: &[u8], r: bool)
    requires
        call_ensures(contains, (b, needle), r),
    ensures
        r <==> is_within(b@, needle@),
{
    lemma_within(b@, needle@);
}

/// What it is to end with something.
pub proof fn law_ends_with(b: &[u8], suffix: &[u8], r: bool)
    requires
        call_ensures(ends_with, (b, suffix), r),
    ensures
        r <==> is_end_of(b@, suffix@),
{
    lemma_end(b@, suffix@);
}

/// Whether a payload names a gateway, in the current way or in that of the third version.
pub open spec fn names_gateway(payload: Seq<u8>) -> bool {
    is_within(payload, "gatewayId".spec_bytes()) || is_within(payload, "gatewayID".spec_bytes())
}

/// Whether a payload holds one of the three texts that only the third version has.
pub open spec fn has_old_name(payload: Seq<u8>) -> bool {
    ||| is_within(payload, "gatewayID".spec_bytes())
    ||| is_within(payload, "\"txInfo\"".spec_bytes())
    ||| is_within(payload, "\"rxInfo\"".spec_bytes())
}

proof fn lemma_names_within(payload: Seq<u8>)
    ensures
        occurs(payload, "gatewayId".spec_bytes()) <==> is_within(
            payload,
            "gatewayId".spec_bytes(),
        ),
        occurs(payload, "gatewayID".spec_bytes()) <==> is_within(
            payload,
            "gatewayID".spec_bytes(),
        ),
        occurs(payload, "\"txInfo\"".spec_bytes()) <==> is_within(
            payload,
            "\"txInfo\"".spec_bytes(),
        ),
        occurs(payload, "\"rxInfo\"".spec_bytes()) <==> is_within(
            payload,
            "\"rxInfo\"".spec_bytes(),
        ),
{
    lemma_within(payload, "gatewayId".spec_bytes());
    lemma_within(payload, "gatewayID".spec_bytes());
    lemma_within(payload, "\"txInfo\"".spec_bytes());
    lemma_within(payload, "\"rxInfo\"".spec_bytes());
}

/// A payload is taken for JSON exactly if it names a gateway.
pub proof fn law_payload_is_json(b: &[u8], r: bool)
    requires
        call_ensures(payload_is_json, (b,), r),
    ensures
        r <==> names_gateway(b@),
{
    lemma_names_within(b@);
}

/// A payload is taken for JSON of the third version exactly if it holds one of three texts.
pub proof fn law_payload_is_v3_json(b: &[u8], r: bool)
    requires
        call_ensures(payload_is_v3_json, (b,), r),
    ensures
        r <==> has_old_name(b@),
{
    lemma_names_within(b@);
}

/// The kind of a message is in the end of its topic, and nothing else makes it of that kind.
pub proof fn law_event_kind(topic: &[u8], r: Option<EventKind>)
    requires
        call_ensures(event_kind, (topic,), r),
    ensures
        r == Some(EventKind::Up) <==> is_end_of(topic@, "/up".spec_bytes()),
        r == Some(EventKind::Stats) <==> is_end_of(topic@, "/stats".spec_bytes()),
        r == Some(EventKind::Ack) <==> is_end_of(topic@, "/ack".spec_bytes()),
        r == Some(EventKind::Mesh) <==> is_end_of(topic@, "/mesh".spec_bytes()),
{
    lemma_end(topic@, "/up".spec_bytes());
    lemma_end(topic@, "/stats".spec_bytes());
    lemma_end(topic@, "/ack".spec_bytes());
    lemma_end(topic@, "/mesh".spec_bytes());
    reveal_strlit("/up");
    reveal_strlit("/stats");
    reveal_strlit("/ack");
    reveal_strlit("/mesh");
    is_ascii_spec_bytes("/up");
    is_ascii_spec_bytes("/stats");
    is_ascii_spec_bytes("/ack");
    is_ascii_spec_bytes("/mesh");
    assert("/up".spec_bytes().len() == 3 && "/up".spec_bytes().last() == 'p' as u8);
    assert("/stats".spec_bytes().len() == 6 && "/stats".spec_bytes().last() == 's' as u8);
    assert("/ack".spec_bytes().len() == 4 && "/ack".spec_bytes().last() == 'k' as u8);
    assert("/mesh".spec_bytes().len() == 5 && "/mesh".spec_bytes().last() == 'h' as u8);
    assert forall|suffix: Seq<u8>| suffix.len() > 0 && #[trigger] is_end_of(topic@, suffix) implies
        topic@.last() == suffix.last() by {
        let before = choose|before: Seq<u8>| topic@ == #[trigger] (before + suffix);
    }
}

/// The kinds of messages are counted by the last level of their topics.
pub proof fn law_label(kind: EventKind, r: &'static str)
    requires
        call_ensures(EventKind::label, (kind,), r),
    ensures
        kind is Up ==> r@ == "up"@,
        kind is Stats ==> r@ == "stats"@,
        kind is Ack ==> r@ == "ack"@,
        kind is Mesh ==> r@ == "mesh"@,
{
}

/// A message is read as what its topic and its payload say: of the kind in its topic; JSON where it
/// names a gateway, and Protobuf otherwise; under its current names where it holds an old one, unless
/// it is of a mesh. It is refused exactly if its topic says no kind, or if it is to get its current
/// names and is not JSON. It is migrated where migration is on and it holds an old name, unless it is
/// of a mesh.
pub proof fn law_message(
    v4_migrate: bool,
    topic: &[u8],
    payload: &[u8],
    registry: &mut Registry,
    r: Result<Incoming, MqttError>,
    kind: Option<EventKind>,
)
    requires
        call_ensures(message_callback, (v4_migrate, topic, payload, registry), r),
        call_ensures(event_kind, (topic,), kind),
    ensures
        ({
            let json = names_gateway(payload@);
            let v3_json = has_old_name(payload@);
            let renames = json && v3_json && kind != Some(EventKind::Mesh);
            &&& r is Err <==> kind is None || renames && parsed(payload@) is None
            &&& kind is None ==> r->Err_0 is UnknownEventType
            &&& kind is Some && r is Err ==> r->Err_0 is Json
            &&& r matches Ok(incoming) ==> {
                &&& Some(incoming.kind) == kind
                &&& incoming.json == json
                &&& incoming.v3_json == v3_json
                &&& incoming.migrate == (v4_migrate && v3_json && kind != Some(EventKind::Mesh))
                &&& incoming.decode is Protobuf <==> !json
                &&& incoming.decode is Json <==> json && !renames
                &&& incoming.decode is Normalized <==> renames
                &&& incoming.decode matches Decode::Normalized(text) ==> exists|document: Json|
                    text@ == #[trigger] written(document) && current_event(
                        incoming.kind,
                        parsed(payload@)->0,
                        document,
                        old(registry)@.tokens,
                    )
            }
            &&& final(registry)@.json == old(registry)@.json
            &&& final(registry)@.v3_json == old(registry)@.v3_json
            &&& final(registry)@.tokens == (if renames && kind is Some && parsed(payload@) is Some {
                tokens_left(kind->0, parsed(payload@)->0, old(registry)@.tokens)
            } else {
                old(registry)@.tokens
            })
        }),
{
    lemma_names_within(payload@);
    if let Some(event) = parsed(payload@) {
        lemma_token_bits(event);
        if let Some(kind) = kind {
            lemma_current_event(kind, event, old(registry)@);
            let document = event_document(kind, event, old(registry)@);
            if let Ok(incoming) = r {
                if let Decode::Normalized(text) = incoming.decode {
                    assert(text@ == written(document));
                }
            }
        }
    }
}

/// A payload that holds none of the three texts that only the third version has is not taken for one
/// of that version, whatever else it holds: it is read as it is, as JSON where it names a gateway in
/// the current way, and as Protobuf otherwise.
pub proof fn law_current_message(
    v4_migrate: bool,
    topic: &[u8],
    payload: &[u8],
    registry: &mut Registry,
    r: Result<Incoming, MqttError>,
)
    requires
        call_ensures(message_callback, (v4_migrate, topic, payload, registry), r),
        !is_within(payload@, "gatewayID".spec_bytes()),
        !is_within(payload@, "\"txInfo\"".spec_bytes()),
        !is_within(payload@, "\"rxInfo\"".spec_bytes()),
    ensures
        r matches Ok(incoming) ==> {
            &&& !incoming.v3_json
            &&& !incoming.migrate
            &&& is_within(payload@, "gatewayId".spec_bytes()) ==> incoming.decode is Json
            &&& !is_within(payload@, "gatewayId".spec_bytes()) ==> incoming.decode is Protobuf
        },
        final(registry)@ == old(registry)@,
{
    lemma_names_within(payload@);
}

/// How a command goes out to a gateway, by what is known of that gateway: Protobuf unless it is known
/// to speak JSON, and under old names where it is known to know only those.
pub open spec fn goes_out(
    backend: MqttBackend,
    known: &Registry,
    gateway_id: Seq<char>,
    outgoing: Outgoing,
) -> bool {
    let json = known@.json.contains_key(gateway_id) && known@.json[gateway_id];
    let v3_json = known@.v3_json.contains_key(gateway_id) && known@.v3_json[gateway_id];
    &&& outgoing.encoding is Protobuf <==> !json
    &&& outgoing.encoding is Json <==> json && !v3_json
    &&& outgoing.encoding is V3Json <==> json && v3_json
    &&& outgoing.qos == backend@.qos
    &&& !outgoing.retain
}

/// Whether a gateway is known to be of the third version.
pub open spec fn known_old(known: &Registry, gateway_id: Seq<char>) -> bool {
    known@.v3_json.contains_key(gateway_id) && known@.v3_json[gateway_id]
}

/// A downlink goes out in the way that the gateway speaks, and is migrated where migration is on and
/// the gateway is of the third version.
pub proof fn law_send_downlink_to(
    backend: &MqttBackend,
    known: &Registry,
    gateway_id: &str,
    topic: String,
    r: Outgoing,
)
    requires
        call_ensures(MqttBackend::send_downlink_to, (backend, known, gateway_id, topic), r),
    ensures
        r.topic@ == topic@,
        goes_out(*backend, known, gateway_id@, r),
        r.migrate <==> backend@.v4_migrate && known_old(known, gateway_id@),
{
}

/// A configuration goes out in the way that the gateway speaks, and is never migrated.
pub proof fn law_send_configuration_to(
    backend: &MqttBackend,
    known: &Registry,
    gateway_id: &str,
    topic: String,
    r: Outgoing,
)
    requires
        call_ensures(MqttBackend::send_configuration_to, (backend, known, gateway_id, topic), r),
    ensures
        r.topic@ == topic@,
        goes_out(*backend, known, gateway_id@, r),
        !r.migrate,
{
}

/// The topic that the template of the backend gives for a gateway and a command.
pub open spec fn topic_for(backend: MqttBackend, gateway_id: Seq<char>, command: Seq<char>) -> Option<
    Seq<char>,
> {
    rendered(
        map!["command_topic"@ => backend@.command_topic],
        "command_topic"@,
        seq![("gateway_id"@, gateway_id), ("command"@, command)],
    )
}

/// The topic of a command is what the template gives for the gateway and the command.
pub proof fn law_command_topic(
    backend: &MqttBackend,
    gateway_id: &str,
    command: &str,
    r: Result<String, MqttError>,
)
    requires
        call_ensures(MqttBackend::get_command_topic, (backend, gateway_id, command), r),
    ensures
        match topic_for(*backend, gateway_id@, command@) {
            Some(topic) => r is Ok && r->Ok_0@ == topic,
            None => r is Err && r->Err_0 is Render,
        },
{
}

/// A downlink goes to the topic of the command `down`.
pub proof fn law_send_downlink(
    backend: &MqttBackend,
    known: &Registry,
    gateway_id: &str,
    r: Result<Outgoing, MqttError>,
)
    requires
        call_ensures(MqttBackend::send_downlink, (backend, known, gateway_id), r),
    ensures
        match topic_for(*backend, gateway_id@, "down"@) {
            Some(topic) => {
                &&& r is Ok
                &&& r->Ok_0.topic@ == topic
                &&& goes_out(*backend, known, gateway_id@, r->Ok_0)
                &&& r->Ok_0.migrate <==> backend@.v4_migrate && known_old(known, gateway_id@)
            },
            None => r is Err && r->Err_0 is Render,
        },
{
}

/// A configuration goes to the topic of the command `config`.
pub proof fn law_send_configuration(
    backend: &MqttBackend,
    known: &Registry,
    gateway_id: &str,
    r: Result<Outgoing, MqttError>,
)
    requires
        call_ensures(MqttBackend::send_configuration, (backend, known, gateway_id), r),
    ensures
        match topic_for(*backend, gateway_id@, "config"@) {
            Some(topic) => {
                &&& r is Ok
                &&& r->Ok_0.topic@ == topic
                &&& goes_out(*backend, known, gateway_id@, r->Ok_0)
                &&& !r->Ok_0.migrate
            },
            None => r is Err && r->Err_0 is Render,
        },
{
}

/// Whether a topic is the one that is set, or, where none is, the default one, with a prefix and a
/// slash before it where there is a prefix.
pub open spec fn is_topic(
    topic: Seq<char>,
    set: Seq<char>,
    prefix: Seq<char>,
    default: Seq<char>,
) -> bool {
    &&& set.len() > 0 ==> topic == set
    &&& set.len() == 0 && prefix.len() == 0 ==> topic == default
    &&& set.len() == 0 && prefix.len() > 0 ==> topic == prefix + "/"@ + default
}

/// The template of the command topic is the one that is set, or else the default one.
pub proof fn law_command_template(conf: &GatewayBackendMqtt, r: String)
    requires
        call_ensures(command_topic, (conf,), r),
    ensures
        is_topic(
            r@,
            conf.command_topic@,
            conf.topic_prefix@,
            "gateway/{{ gateway_id }}/command/{{ command }}"@,
        ),
{
}

/// The name at the broker is the one that is set; where none is, it is a number in hexadecimal.
pub proof fn law_client_id(conf: &GatewayBackendMqtt, random: u64, hex: String, r: String)
    requires
        call_ensures(client_id, (conf, random), r),
        call_ensures(to_hex, (random,), hex),
    ensures
        conf.client_id@.len() > 0 ==> r@ == conf.client_id@,
        conf.client_id@.len() == 0 ==> r@ == hex@,
{
}

/// Whether a connection is the one that the settings ask for.
pub open spec fn is_connection(conf: GatewayBackendMqtt, client_id: Seq<char>, r: Connection) -> bool {
    let certified = conf.tls_cert@.len() > 0 || conf.tls_key@.len() > 0;
    let ca = if conf.ca_cert@.len() > 0 {
        Some(conf.ca_cert@)
    } else {
        None
    };
    &&& r.url@ == conf.server@ + "?client_id="@ + client_id
    &&& r.share_name@ == conf.share_name@
    &&& is_topic(r.event_topic@, conf.event_topic@, conf.topic_prefix@, "gateway/+/event/+"@)
    &&& r.credentials is None <==> conf.username@.len() == 0 && conf.password@.len() == 0
    &&& r.credentials matches Some(c) ==> c.0@ == conf.username@ && c.1@ == conf.password@
    &&& r.tls is Off <==> !certified && ca is None
    &&& r.tls is Server <==> !certified && ca is Some
    &&& r.tls is Mutual <==> certified
    &&& r.tls matches Tls::Server { ca_cert } ==> ca_cert is Some && ca_cert->0@ == conf.ca_cert@
    &&& r.tls matches Tls::Mutual { ca_cert, cert, key } ==> {
        &&& ca_cert is Some <==> ca is Some
        &&& ca_cert is Some ==> ca_cert->0@ == conf.ca_cert@
        &&& cert@ == conf.tls_cert@
        &&& key@ == conf.tls_key@
    }
}

/// A connection is the one that the settings ask for.
pub proof fn law_connection(conf: &GatewayBackendMqtt, client_id: &str, r: Connection)
    requires
        call_ensures(connection, (conf, client_id), r),
    ensures
        is_connection(*conf, client_id@, r),
{
}

/// A backend is made exactly if the command topic is a template and the quality of service is one of
/// three; it then has what the settings say.
pub proof fn law_new_backend(
    region: &str,
    conf: &GatewayBackendMqtt,
    template: String,
    r: Result<(MqttBackend, Connection), MqttError>,
)
    requires
        call_ensures(MqttBackend::new, (region, conf), r),
        call_ensures(command_topic, (conf,), template),
    ensures
        r is Ok <==> compiles(template@) && conf.qos <= 2,
        !compiles(template@) ==> r->Err_0 is Template,
        compiles(template@) && conf.qos > 2 ==> r->Err_0 == (MqttError::InvalidQos {
            qos: conf.qos,
        }),
        r matches Ok(made) ==> {
            &&& made.0@.command_topic == template@
            &&& made.0@.v4_migrate == conf.v4_migrate
            &&& made.0@.region_config_id == region@
            &&& made.0@.qos is AtMostOnce <==> conf.qos == 0
            &&& made.0@.qos is AtLeastOnce <==> conf.qos == 1
            &&& made.0@.qos is ExactlyOnce <==> conf.qos == 2
            &&& exists|id: Seq<char>| #[trigger] is_connection(*conf, id, made.1) && (
            conf.client_id@.len() > 0 ==> id == conf.client_id@)
        },
{
    if let Ok(made) = r {
        let random = choose|random: u64|
            connects(
                *conf,
                #[trigger] client_id_of(*conf, random),
                made.1,
            );
        assert(is_connection(
            *conf,
            client_id_of(*conf, random),
            made.1,
        ));
    }
}

/// What a backend was made with can be read from it.
pub proof fn law_backend_settings(
    backend: &MqttBackend,
    qos: QoS,
    v4_migrate: bool,
    region: &str,
)
    requires
        call_ensures(MqttBackend::qos, (backend,), qos),
        call_ensures(MqttBackend::v4_migrate, (backend,), v4_migrate),
        call_ensures(MqttBackend::region_config_id, (backend,), region),
    ensures
        qos == backend@.qos,
        v4_migrate == backend@.v4_migrate,
        region@ == backend@.region_config_id,
{
}

/// Statistics are marked with the region, by its identifier and by its name.
pub proof fn law_stats_metadata(id: &str, name: &str, r: Vec<(String, String)>)
    requires
        call_ensures(stats_metadata, (id, name), r),
    ensures
        r@.len() == 2,
        exists|i: int|
            0 <= i < 2 && (#[trigger] r@[i]).0@ == "region_config_id"@ && r@[i].1@ == id@,
        exists|i: int|
            0 <= i < 2 && (#[trigger] r@[i]).0@ == "region_common_name"@ && r@[i].1@ == name@,
{
    assert(r@[0].0@ == "region_config_id"@);
    assert(r@[1].0@ == "region_common_name"@);
}

/// A shared subscription is the topic under the name that is shared.
pub proof fn law_subscription_topic(topic: &str, share_name: &str, shared: bool, r: String)
    requires
        call_ensures(subscription_topic, (topic, share_name, shared), r),
    ensures
        !shared ==> r@ == topic@,
        shared ==> r@ == "$share/"@ + share_name@ + "/"@ + topic@,
{
}

/// Each event at the connection has its action: messages are handled; a connection that is made is
/// followed by a subscription, which is shared unless the broker says a number other than 1; one that
/// failed, and any error, is followed by a pause of a second.
pub proof fn law_broker_action(event: BrokerEvent, r: BrokerAction)
    requires
        call_ensures(broker_action, (event,), r),
    ensures
        r is HandleMessage <==> event is Publish,
        r is Continue <==> event is Other,
        r is Pause <==> event is Error || (event is Connected && !event->success),
        r is Subscribe <==> event is Connected && event->success,
        r matches BrokerAction::Subscribe { shared } ==> (!shared
            <==> event->shared_subscriptions is Some && event->shared_subscriptions->0 is Some
            && event->shared_subscriptions->0->0 != 1),
        PAUSE_SECONDS == 1,
{
}

} // verus!
