//! The backend that talks to gateways through an MQTT broker.
use handlebars::Handlebars;
use rand::RngExt;

use vstd::prelude::*;
use vstd::string::{is_ascii_spec_bytes, StringSliceAdditionalSpecFns};

use crate::gateway::backend::registry::{
    flag_of, gateway_is_json, gateway_is_v3_json, register_v3_downlink_token, set_gateway_json,
    set_gateway_v3_json, Registry, RegistryView,
};
use crate::gateway::backend::templates::{
    compiles, context_view, is_tag_filler, marked, may_include_itself, new_registry,
    partial_between, register_template, render, rendered, tag_open, takes_partial,
    template_may_include_itself,
    templates, unconfigured,
};
use crate::gateway::backend::v3_json::{
    downlink_document, event_document, event_registry, gateway_config_document,
    normalize_v3_downlink_json_payload, normalize_v3_gateway_config_json_payload,
    normalize_v3_json_payload,
};
use crate::json::{parsed, written};
use crate::text::{contains, ends_with, has_suffix, hex_number, join3, occurs, to_hex};
use crate::time::{now, Timestamp};

verus! {

/// The settings of the backend. An empty text stands for a setting that is not made.
#[derive(Debug)]
pub struct GatewayBackendMqtt {
    pub topic_prefix: String,
    pub event_topic: String,
    pub command_topic: String,
    pub share_name: String,
    pub server: String,
    pub client_id: String,
    pub username: String,
    pub password: String,
    pub qos: usize,
    pub ca_cert: String,
    pub tls_cert: String,
    pub tls_key: String,
    pub v4_migrate: bool,
}

/// How hard the broker tries to deliver.
#[derive(Clone, Copy, Debug, PartialEq, Eq, Structural)]
pub enum QoS {
    AtMostOnce,
    AtLeastOnce,
    ExactlyOnce,
}

/// How the connection to the broker is secured.
#[derive(Debug)]
pub enum Tls {
    Off,
    /// The broker shows a certificate. It is checked against the certificates of the machine, or
    /// against those in the file.
    Server { ca_cert: Option<String> },
    /// The backend shows a certificate too.
    Mutual { ca_cert: Option<String>, cert: String, key: String },
}

/// How to connect to the broker, and what to subscribe to there.
#[derive(Debug)]
pub struct Connection {
    pub url: String,
    /// A user name and a password.
    pub credentials: Option<(String, String)>,
    pub tls: Tls,
    pub event_topic: String,
    pub share_name: String,
}

/// The kinds of messages that a gateway sends.
#[derive(Clone, Copy, Debug, PartialEq, Eq, Structural)]
pub enum EventKind {
    Up,
    Stats,
    Ack,
    Mesh,
}

/// Why the backend fails.
#[derive(Debug)]
pub enum MqttError {
    /// A text is not JSON.
    Json(serde_json::Error),
    /// The command topic is not a template.
    Template(handlebars::TemplateError),
    /// The command topic cannot be rendered.
    Render(handlebars::RenderError),
    InvalidQos { qos: usize },
    UnknownEventType,
}

/// The backend.
pub struct MqttBackend {
    templates: Handlebars<'static>,
    qos: QoS,
    v4_migrate: bool,
    region_config_id: String,
}

/// The backend as a mathematical value.
pub struct MqttBackendView {
    /// The template of the topic that commands are published to.
    pub command_topic: Seq<char>,
    pub qos: QoS,
    /// Whether messages of the third version are migrated.
    pub v4_migrate: bool,
    pub region_config_id: Seq<char>,
}

impl View for MqttBackend {
    type V = MqttBackendView;

    closed spec fn view(&self) -> MqttBackendView {
        MqttBackendView {
            command_topic: templates(self.templates)[COMMAND_TEMPLATE@],
            qos: self.qos,
            v4_migrate: self.v4_migrate,
            region_config_id: self.region_config_id@,
        }
    }
}

/// The name of the template of the topic that commands are published to.
pub const COMMAND_TEMPLATE: &'static str = "command_topic";

/// The template of the topic that commands are published to, where none is set.
pub const DEFAULT_COMMAND_TOPIC: &'static str = "gateway/{{ gateway_id }}/command/{{ command }}";

/// The topic that gateways publish their messages to, where none is set.
pub const DEFAULT_EVENT_TOPIC: &'static str = "gateway/+/event/+";

/// A topic: the one that is set, or else the default one, under the prefix where one is set.
pub open spec fn topic_or_default(
    topic: Seq<char>,
    prefix: Seq<char>,
    default: Seq<char>,
) -> Seq<char> {
    if topic.len() > 0 {
        topic
    } else if prefix.len() == 0 {
        default
    } else {
        prefix + "/"@ + default
    }
}

/// The template of the topic that commands are published to.
pub open spec fn command_topic_of(conf: GatewayBackendMqtt) -> Seq<char> {
    topic_or_default(
        conf.command_topic@,
        conf.topic_prefix@,
        DEFAULT_COMMAND_TOPIC@,
    )
}

/// The topic that gateways publish their messages to.
pub open spec fn event_topic_of(conf: GatewayBackendMqtt) -> Seq<char> {
    topic_or_default(conf.event_topic@, conf.topic_prefix@, DEFAULT_EVENT_TOPIC@)
}

/// The name that the backend has at the broker: the one that is set, or else a random number.
pub open spec fn client_id_of(conf: GatewayBackendMqtt, random: u64) -> Seq<char> {
    if conf.client_id@.len() == 0 {
        hex_number(random as nat)
    } else {
        conf.client_id@
    }
}

/// A setting, where it is made.
pub open spec fn setting(value: Seq<char>) -> Option<Seq<char>> {
    if value.len() == 0 {
        None
    } else {
        Some(value)
    }
}

/// The text of an optional string.
pub open spec fn opt_text(value: Option<String>) -> Option<Seq<char>> {
    match value {
        Some(text) => Some(text@),
        None => None,
    }
}

/// Whether `tls` secures a connection as the settings have it.
pub open spec fn secures(conf: GatewayBackendMqtt, tls: Tls) -> bool {
    match tls {
        Tls::Off => {
            conf.ca_cert@.len() == 0 && conf.tls_cert@.len() == 0 && conf.tls_key@.len() == 0
        },
        Tls::Server { ca_cert } => {
            &&& conf.tls_cert@.len() == 0 && conf.tls_key@.len() == 0
            &&& conf.ca_cert@.len() > 0
            &&& opt_text(ca_cert) == setting(conf.ca_cert@)
        },
        Tls::Mutual { ca_cert, cert, key } => {
            &&& conf.tls_cert@.len() > 0 || conf.tls_key@.len() > 0
            &&& opt_text(ca_cert) == setting(conf.ca_cert@)
            &&& cert@ == conf.tls_cert@
            &&& key@ == conf.tls_key@
        },
    }
}

/// Whether `connection` is the one that the settings ask for, under the name `client_id`.
pub open spec fn connects(
    conf: GatewayBackendMqtt,
    client_id: Seq<char>,
    connection: Connection,
) -> bool {
    &&& connection.url@ == conf.server@ + "?client_id="@ + client_id
    &&& match connection.credentials {
        Some((username, password)) => {
            &&& conf.username@.len() > 0 || conf.password@.len() > 0
            &&& username@ == conf.username@
            &&& password@ == conf.password@
        },
        None => conf.username@.len() == 0 && conf.password@.len() == 0,
    }
    &&& secures(conf, connection.tls)
    &&& connection.event_topic@ == event_topic_of(conf)
    &&& connection.share_name@ == conf.share_name@
}

/// The quality of service that a number stands for.
pub open spec fn qos_of(qos: usize) -> Option<QoS> {
    match qos {
        0 => Some(QoS::AtMostOnce),
        1 => Some(QoS::AtLeastOnce),
        2 => Some(QoS::ExactlyOnce),
        _ => None,
    }
}

/// A random number, by `random` of the generator that `rand::rng` hands out. Nothing is claimed of
/// the result, which may be any number.
#[verifier::external_body]
fn random_number() -> (r: u64)
{
    rand::rng().random()
}

/// A topic: the one that is set, or else the default one, under the prefix where one is set.
fn topic_with_default(topic: &str, prefix: &str, default: &str) -> (r: String)
    ensures
        r@ == topic_or_default(topic@, prefix@, default@),
{
    if !topic.is_empty() {
        topic.to_string()
    } else if prefix.is_empty() {
        default.to_string()
    } else {
        join3(prefix, "/", default)
    }
}

/// A setting, where it is made.
fn optional_setting(value: &str) -> (r: Option<String>)
    ensures
        opt_text(r) == setting(value@),
{
    if value.is_empty() {
        None
    } else {
        Some(value.to_string())
    }
}

/// The template of the topic that commands are published to.
pub fn command_topic(conf: &GatewayBackendMqtt) -> (r: String)
    ensures
        r@ == command_topic_of(*conf),
{
    topic_with_default(&conf.command_topic, &conf.topic_prefix, DEFAULT_COMMAND_TOPIC)
}

/// Whether the template of the topic that commands are published to can include itself, or one of
/// its inline partials, without end. Whether such a template is ever rendered is not known.
pub fn command_topic_may_include_itself(conf: &GatewayBackendMqtt) -> (r: bool)
    ensures
        r == may_include_itself(COMMAND_TEMPLATE@, command_topic_of(*conf)),
{
    template_may_include_itself(COMMAND_TEMPLATE, &command_topic(conf))
}

/// The name that the backend has at the broker; `random` is a random number.
pub fn client_id(conf: &GatewayBackendMqtt, random: u64) -> (r: String)
    ensures
        r@ == client_id_of(*conf, random),
{
    if conf.client_id.as_str().is_empty() {
        to_hex(random)
    } else {
        conf.client_id.clone()
    }
}

/// How to connect to the broker under the name `client_id`.
pub fn connection(conf: &GatewayBackendMqtt, client_id: &str) -> (r: Connection)
    ensures
        connects(*conf, client_id@, r),
{
    let no_ca_cert = conf.ca_cert.as_str().is_empty();
    let no_tls_cert = conf.tls_cert.as_str().is_empty();
    let no_tls_key = conf.tls_key.as_str().is_empty();
    let tls = if no_ca_cert && no_tls_cert && no_tls_key {
        Tls::Off
    } else if no_tls_cert && no_tls_key {
        Tls::Server { ca_cert: optional_setting(&conf.ca_cert) }
    } else {
        Tls::Mutual {
            ca_cert: optional_setting(&conf.ca_cert),
            cert: conf.tls_cert.clone(),
            key: conf.tls_key.clone(),
        }
    };
    let credentials = if !conf.username.as_str().is_empty() || !conf.password.as_str().is_empty() {
        Some((conf.username.clone(), conf.password.clone()))
    } else {
        None
    };
    Connection {
        url: join3(&conf.server, "?client_id=", client_id),
        credentials,
        tls,
        event_topic: topic_with_default(
            &conf.event_topic,
            &conf.topic_prefix,
            DEFAULT_EVENT_TOPIC,
        ),
        share_name: conf.share_name.clone(),
    }
}

/// How a message is encoded.
#[derive(Clone, Copy, Debug, PartialEq, Eq, Structural)]
pub enum Encoding {
    Protobuf,
    Json,
    /// JSON of the third version.
    V3Json,
}

/// The encoding of messages that are JSON or not, and of the third version or not.
pub open spec fn encoding_of(json: bool, v3_json: bool) -> Encoding {
    if json && v3_json {
        Encoding::V3Json
    } else if json {
        Encoding::Json
    } else {
        Encoding::Protobuf
    }
}

/// The encoding of messages that are JSON or not, and of the third version or not.
fn select_encoding(json: bool, v3_json: bool) -> (r: Encoding)
    ensures
        r == encoding_of(json, v3_json),
{
    match json {
        true => if v3_json {
            Encoding::V3Json
        } else {
            Encoding::Json
        },
        false => Encoding::Protobuf,
    }
}

/// A command for a gateway that is about to be sent.
#[derive(Debug)]
pub struct Outgoing {
    /// The topic that it is published to.
    pub topic: String,
    pub qos: QoS,
    /// Whether the broker keeps it for those who subscribe later.
    pub retain: bool,
    pub encoding: Encoding,
    /// Whether it is migrated before it is encoded.
    pub migrate: bool,
}

impl MqttBackendView {
    /// Whether `outgoing` is how a downlink is sent to a gateway, whatever its topic is: once, in the
    /// way that the gateway sends its own messages. It is migrated for a gateway of the third version.
    pub open spec fn sends_downlink(
        self,
        registry: RegistryView,
        gateway_id: Seq<char>,
        outgoing: Outgoing,
    ) -> bool {
        let v3_json = flag_of(registry.v3_json, gateway_id);
        &&& outgoing.qos == self.qos
        &&& !outgoing.retain
        &&& outgoing.encoding == encoding_of(flag_of(registry.json, gateway_id), v3_json)
        &&& outgoing.migrate == (self.v4_migrate && v3_json)
    }

    /// Whether `outgoing` is how a configuration is sent to a gateway, whatever its topic is. It is
    /// never migrated.
    pub open spec fn sends_configuration(
        self,
        registry: RegistryView,
        gateway_id: Seq<char>,
        outgoing: Outgoing,
    ) -> bool {
        let v3_json = flag_of(registry.v3_json, gateway_id);
        &&& outgoing.qos == self.qos
        &&& !outgoing.retain
        &&& outgoing.encoding == encoding_of(flag_of(registry.json, gateway_id), v3_json)
        &&& !outgoing.migrate
    }

    /// The topic that a command for a gateway is published to, where there is one.
    pub open spec fn topic(self, gateway_id: Seq<char>, command: Seq<char>) -> Option<Seq<char>> {
        rendered(
            map![COMMAND_TEMPLATE@ => self.command_topic],
            COMMAND_TEMPLATE@,
            seq![("gateway_id"@, gateway_id), ("command"@, command)],
        )
    }
}

impl MqttBackend {
    /// The backend has one template.
    #[verifier::type_invariant]
    spec fn wf(self) -> bool {
        &&& unconfigured(self.templates)
        &&& templates(self.templates).dom() == set![COMMAND_TEMPLATE@]
    }

    /// The backend for a region, and how to connect it to the broker.
    pub fn new(region_config_id: &str, conf: &GatewayBackendMqtt) -> (r: Result<
        (MqttBackend, Connection),
        MqttError,
    >)
        ensures
            match r {
                Ok((backend, connection)) => {
                    &&& compiles(command_topic_of(*conf))
                    &&& backend@.command_topic == command_topic_of(*conf)
                    &&& qos_of(conf.qos) == Some(backend@.qos)
                    &&& backend@.v4_migrate == conf.v4_migrate
                    &&& backend@.region_config_id == region_config_id@
                    &&& exists|random: u64|
                        connects(*conf, #[trigger] client_id_of(*conf, random), connection)
                },
                Err(MqttError::Template(_)) => !compiles(command_topic_of(*conf)),
                Err(MqttError::InvalidQos { qos }) => {
                    &&& compiles(command_topic_of(*conf))
                    &&& qos_of(conf.qos) is None
                    &&& qos == conf.qos
                },
                Err(_) => false,
            },
    {
        let mut registry = new_registry();
        let command_topic = command_topic(conf);
        if let Err(e) = register_template(&mut registry, COMMAND_TEMPLATE, &command_topic) {
            return Err(MqttError::Template(e));
        }
        assert(templates(registry).dom() =~= set![COMMAND_TEMPLATE@]);

        let random = random_number();
        let client_id = client_id(conf, random);

        let qos = match conf.qos {
            0 => QoS::AtMostOnce,
            1 => QoS::AtLeastOnce,
            2 => QoS::ExactlyOnce,
            _ => return Err(MqttError::InvalidQos { qos: conf.qos }),
        };

        let backend = MqttBackend {
            templates: registry,
            qos,
            v4_migrate: conf.v4_migrate,
            region_config_id: region_config_id.to_string(),
        };
        let connection = connection(conf, &client_id);
        assert(connects(*conf, client_id_of(*conf, random), connection));
        Ok((backend, connection))
    }

    /// How hard the broker tries to deliver what the backend sends and receives.
    pub fn qos(&self) -> (r: QoS)
        ensures
            r == self@.qos,
    {
        self.qos
    }

    /// Whether messages of the third version are migrated.
    pub fn v4_migrate(&self) -> (r: bool)
        ensures
            r == self@.v4_migrate,
    {
        self.v4_migrate
    }

    /// The region that the backend is for.
    pub fn region_config_id(&self) -> (r: &str)
        ensures
            r@ == self@.region_config_id,
    {
        self.region_config_id.as_str()
    }

    /// The topic that a command for a gateway is published to.
    pub fn get_command_topic(&self, gateway_id: &str, command: &str) -> (r: Result<
        String,
        MqttError,
    >)
        requires
            !may_include_itself(COMMAND_TEMPLATE@, self@.command_topic),
        ensures
            match r {
                Ok(topic) => self@.topic(gateway_id@, command@) == Some(topic@),
                Err(e) => self@.topic(gateway_id@, command@) is None && e is Render,
            },
    {
        proof {
            use_type_invariant(self);
        }
        assert(templates(self.templates) =~= map![COMMAND_TEMPLATE@ => self@.command_topic]);
        let context = [("gateway_id", gateway_id), ("command", command)];
        assert(context_view(context@) =~= seq![
            ("gateway_id"@, gateway_id@),
            ("command"@, command@),
        ]);
        match render(&self.templates, COMMAND_TEMPLATE, context) {
            Ok(topic) => Ok(topic),
            Err(e) => Err(MqttError::Render(e)),
        }
    }

    /// How to send a downlink to a gateway: in the way that the gateway sends its own messages.
    pub fn send_downlink(&self, registry: &Registry, gateway_id: &str) -> (r: Result<
        Outgoing,
        MqttError,
    >)
        requires
            !may_include_itself(COMMAND_TEMPLATE@, self@.command_topic),
        ensures
            match r {
                Ok(outgoing) => {
                    &&& self@.topic(gateway_id@, "down"@) == Some(outgoing.topic@)
                    &&& self@.sends_downlink(registry@, gateway_id@, outgoing)
                },
                Err(e) => self@.topic(gateway_id@, "down"@) is None && e is Render,
            },
    {
        match self.get_command_topic(gateway_id, "down") {
            Ok(topic) => Ok(self.send_downlink_to(registry, gateway_id, topic)),
            Err(e) => Err(e),
        }
    }

    /// How to send a downlink to a gateway whose topic for that is `topic`.
    pub fn send_downlink_to(&self, registry: &Registry, gateway_id: &str, topic: String) -> (r:
        Outgoing)
        ensures
            r.topic == topic,
            self@.sends_downlink(registry@, gateway_id@, r),
    {
        let json = gateway_is_json(registry, gateway_id);
        let v3_json = gateway_is_v3_json(registry, gateway_id);
        Outgoing {
            topic,
            qos: self.qos,
            retain: false,
            encoding: select_encoding(json, v3_json),
            migrate: self.v4_migrate && v3_json,
        }
    }

    /// How to send a configuration to a gateway.
    pub fn send_configuration(&self, registry: &Registry, gateway_id: &str) -> (r: Result<
        Outgoing,
        MqttError,
    >)
        requires
            !may_include_itself(COMMAND_TEMPLATE@, self@.command_topic),
        ensures
            match r {
                Ok(outgoing) => {
                    &&& self@.topic(gateway_id@, "config"@) == Some(outgoing.topic@)
                    &&& self@.sends_configuration(registry@, gateway_id@, outgoing)
                },
                Err(e) => self@.topic(gateway_id@, "config"@) is None && e is Render,
            },
    {
        match self.get_command_topic(gateway_id, "config") {
            Ok(topic) => Ok(self.send_configuration_to(registry, gateway_id, topic)),
            Err(e) => Err(e),
        }
    }

    /// How to send a configuration to a gateway whose topic for that is `topic`.
    pub fn send_configuration_to(&self, registry: &Registry, gateway_id: &str, topic: String) -> (r:
        Outgoing)
        ensures
            r.topic == topic,
            self@.sends_configuration(registry@, gateway_id@, r),
    {
        let json = gateway_is_json(registry, gateway_id);
        let v3_json = gateway_is_v3_json(registry, gateway_id);
        Outgoing {
            topic,
            qos: self.qos,
            retain: false,
            encoding: select_encoding(json, v3_json),
            migrate: false,
        }
    }
}

/// What is remembered of a downlink that is about to be sent: a gateway of the third version
/// acknowledges it by a token, which is the number of the downlink.
pub open spec fn downlink_registry(
    encoding: Encoding,
    downlink_id: u32,
    registry: RegistryView,
) -> RegistryView {
    if encoding is V3Json {
        registry.with_token(downlink_id, downlink_id)
    } else {
        registry
    }
}

/// Takes note of a downlink that is about to be sent.
pub fn begin_downlink(registry: &mut Registry, encoding: Encoding, downlink_id: u32)
    ensures
        final(registry)@ == downlink_registry(encoding, downlink_id, old(registry)@),
        old(registry)@.wf() ==> final(registry)@.wf(),
{
    if let Encoding::V3Json = encoding {
        register_v3_downlink_token(registry, downlink_id, downlink_id);
    }
}

/// The payload of a downlink, out of what the downlink is encoded as.
pub fn downlink_payload(encoding: Encoding, encoded: Vec<u8>) -> (r: Result<Vec<u8>, MqttError>)
    ensures
        match (encoding, parsed(encoded@)) {
            (Encoding::V3Json, Some(downlink)) => {
                r is Ok && r->Ok_0@ == written(downlink_document(downlink))
            },
            (Encoding::V3Json, None) => r is Err && r->Err_0 is Json,
            _ => r == Ok::<Vec<u8>, MqttError>(encoded),
        },
{
    match encoding {
        Encoding::V3Json => normalize_v3_downlink_json_payload(&encoded),
        Encoding::Json => Ok(encoded),
        Encoding::Protobuf => Ok(encoded),
    }
}

/// The payload of a configuration, out of what the configuration is encoded as.
pub fn configuration_payload(encoding: Encoding, encoded: Vec<u8>) -> (r: Result<
    Vec<u8>,
    MqttError,
>)
    ensures
        match (encoding, parsed(encoded@)) {
            (Encoding::V3Json, Some(config)) => {
                r is Ok && r->Ok_0@ == written(gateway_config_document(config))
            },
            (Encoding::V3Json, None) => r is Err && r->Err_0 is Json,
            _ => r == Ok::<Vec<u8>, MqttError>(encoded),
        },
{
    match encoding {
        Encoding::V3Json => normalize_v3_gateway_config_json_payload(&encoded),
        Encoding::Json => Ok(encoded),
        Encoding::Protobuf => Ok(encoded),
    }
}

/// Whether a payload is taken for JSON: it names a gateway. The names are ASCII, so that it does
/// not matter whether the payload is UTF-8.
pub open spec fn is_json(payload: Seq<u8>) -> bool {
    occurs(payload, "gatewayId".spec_bytes()) || occurs(payload, "gatewayID".spec_bytes())
}

/// Whether a payload is taken for JSON of the third version: it holds a name of that version.
pub open spec fn is_v3_json(payload: Seq<u8>) -> bool {
    ||| occurs(payload, "gatewayID".spec_bytes())
    ||| occurs(payload, "\"txInfo\"".spec_bytes())
    ||| occurs(payload, "\"rxInfo\"".spec_bytes())
}

/// Whether a payload is taken for JSON.
pub fn payload_is_json(b: &[u8]) -> (r: bool)
    ensures
        r == is_json(b@),
{
    contains(b, "gatewayId".as_bytes()) || contains(b, "gatewayID".as_bytes())
}

/// Whether a payload is taken for JSON of the third version.
pub fn payload_is_v3_json(b: &[u8]) -> (r: bool)
    ensures
        r == is_v3_json(b@),
{
    contains(b, "gatewayID".as_bytes()) || contains(b, "\"txInfo\"".as_bytes()) || contains(
        b,
        "\"rxInfo\"".as_bytes(),
    )
}

/// The kind of the messages that are published to a topic.
pub open spec fn kind_of(topic: Seq<u8>) -> Option<EventKind> {
    if has_suffix(topic, "/up".spec_bytes()) {
        Some(EventKind::Up)
    } else if has_suffix(topic, "/stats".spec_bytes()) {
        Some(EventKind::Stats)
    } else if has_suffix(topic, "/ack".spec_bytes()) {
        Some(EventKind::Ack)
    } else if has_suffix(topic, "/mesh".spec_bytes()) {
        Some(EventKind::Mesh)
    } else {
        None
    }
}

/// The kind of the messages that are published to a topic.
pub fn event_kind(topic: &[u8]) -> (r: Option<EventKind>)
    ensures
        r == kind_of(topic@),
{
    if ends_with(topic, "/up".as_bytes()) {
        Some(EventKind::Up)
    } else if ends_with(topic, "/stats".as_bytes()) {
        Some(EventKind::Stats)
    } else if ends_with(topic, "/ack".as_bytes()) {
        Some(EventKind::Ack)
    } else if ends_with(topic, "/mesh".as_bytes()) {
        Some(EventKind::Mesh)
    } else {
        None
    }
}

impl EventKind {
    /// The name of the kind, which messages are counted by.
    pub open spec fn name(self) -> Seq<char> {
        match self {
            EventKind::Up => "up"@,
            EventKind::Stats => "stats"@,
            EventKind::Ack => "ack"@,
            EventKind::Mesh => "mesh"@,
        }
    }

    /// The name of the kind, which messages are counted by.
    pub fn label(self) -> (r: &'static str)
        ensures
            r@ == self.name(),
    {
        match self {
            EventKind::Up => "up",
            EventKind::Stats => "stats",
            EventKind::Ack => "ack",
            EventKind::Mesh => "mesh",
        }
    }
}

/// What a message is decoded from.
#[derive(Debug)]
pub enum Decode {
    /// From its payload, which is Protobuf.
    Protobuf,
    /// From its payload, which is JSON.
    Json,
    /// From this JSON, which its payload was turned into.
    Normalized(Vec<u8>),
}

/// A message of a gateway that is about to be decoded.
#[derive(Debug)]
pub struct Incoming {
    pub kind: EventKind,
    pub decode: Decode,
    /// Whether the payload is taken for JSON.
    pub json: bool,
    /// Whether the payload is taken for JSON of the third version.
    pub v3_json: bool,
    /// Whether the message is migrated once it is decoded.
    pub migrate: bool,
}

/// The encoding of a message. Those of a mesh know no third version.
pub open spec fn incoming_encoding(kind: EventKind, payload: Seq<u8>) -> Encoding {
    encoding_of(is_json(payload), is_v3_json(payload) && !(kind is Mesh))
}

/// Whether `decode` is what a message in some encoding is decoded from.
pub open spec fn decodes(
    kind: EventKind,
    payload: Seq<u8>,
    registry: RegistryView,
    decode: Decode,
) -> bool {
    match incoming_encoding(kind, payload) {
        Encoding::Protobuf => decode is Protobuf,
        Encoding::Json => decode is Json,
        Encoding::V3Json => {
            &&& parsed(payload) matches Some(event)
            &&& decode matches Decode::Normalized(text)
            &&& text@ == written(event_document(kind, event, registry))
        },
    }
}

/// What is remembered once a message is read.
pub open spec fn incoming_registry(
    kind: Option<EventKind>,
    payload: Seq<u8>,
    registry: RegistryView,
) -> RegistryView {
    match (kind, parsed(payload)) {
        (Some(kind), Some(event)) => if incoming_encoding(kind, payload) is V3Json {
            event_registry(kind, event, registry)
        } else {
            registry
        },
        _ => registry,
    }
}

/// Reads a message that a gateway published: its kind is in the topic, and its encoding is taken
/// from its payload.
pub fn message_callback(
    v4_migrate: bool,
    topic: &[u8],
    payload: &[u8],
    registry: &mut Registry,
) -> (r: Result<Incoming, MqttError>)
    ensures
        match r {
            Ok(incoming) => {
                &&& kind_of(topic@) == Some(incoming.kind)
                &&& decodes(incoming.kind, payload@, old(registry)@, incoming.decode)
                &&& incoming.json == is_json(payload@)
                &&& incoming.v3_json == is_v3_json(payload@)
                &&& incoming.migrate == (v4_migrate && incoming.v3_json && !(incoming.kind is Mesh))
            },
            Err(MqttError::UnknownEventType) => kind_of(topic@) is None,
            Err(MqttError::Json(_)) => {
                &&& kind_of(topic@) is Some
                &&& incoming_encoding(kind_of(topic@)->0, payload@) is V3Json
                &&& parsed(payload@) is None
            },
            Err(_) => false,
        },
        final(registry)@ == incoming_registry(kind_of(topic@), payload@, old(registry)@),
        old(registry)@.wf() ==> final(registry)@.wf(),
{
    let json = payload_is_json(payload);
    let v3_json = payload_is_v3_json(payload);
    let kind = match event_kind(topic) {
        Some(kind) => kind,
        None => return Err(MqttError::UnknownEventType),
    };
    let mesh = match kind {
        EventKind::Mesh => true,
        _ => false,
    };
    let decode = match select_encoding(json, v3_json && !mesh) {
        Encoding::Protobuf => Decode::Protobuf,
        Encoding::Json => Decode::Json,
        Encoding::V3Json => match normalize_v3_json_payload(kind, payload, registry) {
            Ok(text) => Decode::Normalized(text),
            Err(e) => return Err(e),
        },
    };
    Ok(Incoming { kind, decode, json, v3_json, migrate: v4_migrate && v3_json && !mesh })
}

/// What is remembered of a gateway whose message was decoded. The gateway of a mesh message is
/// not known, nor that of an uplink without reception parameters.
pub open spec fn accepted_registry(
    incoming: Incoming,
    gateway_id: Option<Seq<char>>,
    registry: RegistryView,
) -> RegistryView {
    match gateway_id {
        Some(id) => if incoming.kind is Mesh {
            registry
        } else {
            RegistryView {
                json: registry.json.insert(id, incoming.json),
                v3_json: registry.v3_json.insert(id, incoming.v3_json),
                ..registry
            }
        },
        None => registry,
    }
}

/// The view of an optional text.
pub open spec fn opt_str(s: Option<&str>) -> Option<Seq<char>> {
    match s {
        Some(s) => Some(s@),
        None => None,
    }
}

/// Takes note of how the gateway of a decoded message encodes its messages. An uplink with reception
/// parameters is stamped with the time that comes back, which is the current one.
pub fn accept(registry: &mut Registry, incoming: &Incoming, gateway_id: Option<&str>) -> (r: Option<
    Timestamp,
>)
    ensures
        final(registry)@ == accepted_registry(*incoming, opt_str(gateway_id), old(registry)@),
        old(registry)@.wf() ==> final(registry)@.wf(),
        r is Some <==> incoming.kind is Up && gateway_id is Some,
        r matches Some(time) ==> time.is_clock_time(),
{
    if let EventKind::Mesh = incoming.kind {
        return None;
    }
    if let Some(gateway_id) = gateway_id {
        set_gateway_json(registry, gateway_id, incoming.json);
        set_gateway_v3_json(registry, gateway_id, incoming.v3_json);
        if let EventKind::Up = incoming.kind {
            return Some(now());
        }
    }
    None
}

/// What is added to the metadata of gateway statistics: keys with their values.
pub fn stats_metadata(region_config_id: &str, region_common_name: &str) -> (r: Vec<
    (String, String),
>)
    ensures
        r@.len() == 2,
        r@[0].0@ == "region_config_id"@ && r@[0].1@ == region_config_id@,
        r@[1].0@ == "region_common_name"@ && r@[1].1@ == region_common_name@,
{
    let mut r: Vec<(String, String)> = Vec::new();
    r.push(("region_config_id".to_string(), region_config_id.to_string()));
    r.push(("region_common_name".to_string(), region_common_name.to_string()));
    r
}

/// What happens at the connection to the broker.
#[derive(Clone, Copy, Debug, PartialEq, Eq, Structural)]
pub enum BrokerEvent {
    /// A message came in.
    Publish,
    /// The broker answered the request for a connection. `shared_subscriptions` is what it says of
    /// shared subscriptions: nothing at all, nothing among other properties, or a number.
    Connected { success: bool, shared_subscriptions: Option<Option<u8>> },
    Other,
    Error,
}

/// What the backend does next at the connection to the broker.
#[derive(Clone, Copy, Debug, PartialEq, Eq, Structural)]
pub enum BrokerAction {
    HandleMessage,
    /// Subscribe to the messages of the gateways. A broker may have lost the subscription that was
    /// made at an earlier connection.
    Subscribe { shared: bool },
    /// Wait before the next attempt.
    Pause,
    Continue,
}

/// How many seconds the backend waits before it tries again.
pub const PAUSE_SECONDS: u64 = 1;

/// Whether a broker supports shared subscriptions: it does unless it says a number other than 1.
pub open spec fn supports_shared(shared_subscriptions: Option<Option<u8>>) -> bool {
    match shared_subscriptions {
        Some(Some(available)) => available == 1,
        _ => true,
    }
}

/// What the backend does after an event at the connection.
pub open spec fn action_after(event: BrokerEvent) -> BrokerAction {
    match event {
        BrokerEvent::Publish => BrokerAction::HandleMessage,
        BrokerEvent::Connected { success, shared_subscriptions } => if success {
            BrokerAction::Subscribe { shared: supports_shared(shared_subscriptions) }
        } else {
            BrokerAction::Pause
        },
        BrokerEvent::Other => BrokerAction::Continue,
        BrokerEvent::Error => BrokerAction::Pause,
    }
}

/// What the backend does after an event at the connection.
pub fn broker_action(event: BrokerEvent) -> (r: BrokerAction)
    ensures
        r == action_after(event),
{
    match event {
        BrokerEvent::Publish => BrokerAction::HandleMessage,
        BrokerEvent::Connected { success, shared_subscriptions } => {
            if success {
                let shared = match shared_subscriptions {
                    Some(Some(available)) => available == 1,
                    _ => true,
                };
                BrokerAction::Subscribe { shared }
            } else {
                BrokerAction::Pause
            }
        },
        BrokerEvent::Other => BrokerAction::Continue,
        BrokerEvent::Error => BrokerAction::Pause,
    }
}

/// The topic to subscribe to. With a shared subscription, each message goes to one of those that
/// share it.
pub fn subscription_topic(event_topic: &str, share_name: &str, shared: bool) -> (r: String)
    ensures
        r@ == (if shared {
            "$share/"@ + share_name@ + "/"@ + event_topic@
        } else {
            event_topic@
        }),
{
    if shared {
        let mut r = join3("$share/", share_name, "/");
        r.append(event_topic);
        r
    } else {
        event_topic.to_string()
    }
}

/// A payload that names a gateway in the way of the third version is taken for JSON of the third
/// version. So is one that names the gateway in the current way and holds parameters under their
/// old names.
pub proof fn law_third_version_is_told(kind: EventKind, payload: Seq<u8>)
    requires
        !(kind is Mesh),
    ensures
        occurs(payload, "gatewayID".spec_bytes()) ==> incoming_encoding(kind, payload) is V3Json,
        occurs(payload, "gatewayId".spec_bytes()) && (occurs(payload, "\"txInfo\"".spec_bytes())
            || occurs(payload, "\"rxInfo\"".spec_bytes())) ==> incoming_encoding(kind, payload)
            is V3Json,
{
}

/// A gateway is answered in the encoding of the last message that was accepted from it. A message
/// of one gateway does not change how another is answered, and a message of a mesh changes nothing.
pub proof fn law_answered_as_it_spoke(
    incoming: Incoming,
    payload: Seq<u8>,
    gateway_id: Seq<char>,
    other: Seq<char>,
    registry: RegistryView,
)
    requires
        incoming.json == is_json(payload),
        incoming.v3_json == is_v3_json(payload),
    ensures
        ({
            let after = accepted_registry(incoming, Some(gateway_id), registry);
            &&& !(incoming.kind is Mesh) ==> encoding_of(
                flag_of(after.json, gateway_id),
                flag_of(after.v3_json, gateway_id),
            ) == incoming_encoding(incoming.kind, payload)
            &&& other != gateway_id ==> {
                &&& flag_of(after.json, other) == flag_of(registry.json, other)
                &&& flag_of(after.v3_json, other) == flag_of(registry.v3_json, other)
            }
            &&& incoming.kind is Mesh ==> after == registry
        }),
{
}

/// What is remembered of the gateways' encodings depends on accepted messages alone, and what is
/// remembered of the tokens depends on downlinks and acknowledgements alone.
pub proof fn law_flags_and_tokens_apart(
    incoming: Incoming,
    gateway_id: Option<Seq<char>>,
    kind: Option<EventKind>,
    payload: Seq<u8>,
    encoding: Encoding,
    downlink_id: u32,
    registry: RegistryView,
)
    ensures
        accepted_registry(incoming, gateway_id, registry).tokens == registry.tokens,
        incoming_registry(kind, payload, registry).json == registry.json,
        incoming_registry(kind, payload, registry).v3_json == registry.v3_json,
        kind != Some(EventKind::Ack) ==> incoming_registry(kind, payload, registry) == registry,
        downlink_registry(encoding, downlink_id, registry).json == registry.json,
        downlink_registry(encoding, downlink_id, registry).v3_json == registry.v3_json,
{
}

/// Where no topic is set, commands can be sent, unless the prefix takes a partial: the default
/// template includes nothing.
pub proof fn law_default_topic_can_be_sent_to(conf: GatewayBackendMqtt)
    requires
        conf.command_topic@.len() == 0,
        !takes_partial(conf.topic_prefix@),
    ensures
        !may_include_itself(COMMAND_TEMPLATE@, command_topic_of(conf)),
{
    reveal_strlit("gateway/{{ gateway_id }}/command/{{ command }}");
    reveal_strlit("/");
    let topic = command_topic_of(conf);
    let prefix = conf.topic_prefix@;
    let default = DEFAULT_COMMAND_TOPIC@;
    assert forall|j: int| !marked(topic, j, '>') by {
        if marked(topic, j, '>') {
            if prefix.len() == 0 {
                assert(topic[j] == default[j]);
            } else if j > prefix.len() {
                assert(topic[j] == default[j - prefix.len() - 1]);
            }
            assert(j < prefix.len());
            let i = choose|i: int| tag_open(topic, i, j);
            assert forall|k: int| i + 2 <= k < j implies is_tag_filler(#[trigger] prefix[k]) by {
                assert(is_tag_filler(topic[k]));
            }
            assert(tag_open(prefix, i, j));
            assert(marked(prefix, j, '>'));
        }
    }
    assert forall|d: int, p: int, e: int| !partial_between(topic, d, p, e) by {
        assert(!marked(topic, p, '>'));
    }
}

proof fn lemma_suffix(head: Seq<u8>, suffix: Seq<u8>)
    ensures
        has_suffix(head + suffix, suffix),
{
    assert((head + suffix).subrange(head.len() as int, (head + suffix).len() as int) =~= suffix);
}

proof fn lemma_last_byte(topic: Seq<u8>, suffix: Seq<u8>)
    requires
        has_suffix(topic, suffix),
        suffix.len() > 0,
    ensures
        topic.len() > 0,
        topic.last() == suffix.last(),
{
    let tail = topic.subrange(topic.len() - suffix.len(), topic.len() as int);
    assert(tail.last() == topic.last());
}

/// The kind of a message is in the last level of its topic, whatever the levels before it are.
pub proof fn law_kind_is_last_level(head: Seq<u8>)
    ensures
        kind_of(head + "/up".spec_bytes()) == Some(EventKind::Up),
        kind_of(head + "/stats".spec_bytes()) == Some(EventKind::Stats),
        kind_of(head + "/ack".spec_bytes()) == Some(EventKind::Ack),
        kind_of(head + "/mesh".spec_bytes()) == Some(EventKind::Mesh),
{
    reveal_strlit("/up");
    reveal_strlit("/stats");
    reveal_strlit("/ack");
    reveal_strlit("/mesh");
    is_ascii_spec_bytes("/up");
    is_ascii_spec_bytes("/stats");
    is_ascii_spec_bytes("/ack");
    is_ascii_spec_bytes("/mesh");
    assert("/up".spec_bytes().len() == 3 && "/up".spec_bytes().last() == 'p' as u8);
    assert("/stats".spec_bytes().len() == 6 && "/stats".spec_bytes().last() == 's' as u8);
    assert("/ack".spec_bytes().len() == 4 && "/ack".spec_bytes().last() == 'k' as u8);
    assert("/mesh".spec_bytes().len() == 5 && "/mesh".spec_bytes().last() == 'h' as u8);
    assert forall|topic: Seq<u8>, suffix: Seq<u8>|
        suffix.len() > 0 && #[trigger] has_suffix(topic, suffix) implies topic.last()
        == suffix.last() by {
        lemma_last_byte(topic, suffix);
    }
    lemma_suffix(head, "/up".spec_bytes());
    lemma_suffix(head, "/stats".spec_bytes());
    lemma_suffix(head, "/ack".spec_bytes());
    lemma_suffix(head, "/mesh".spec_bytes());
}

} // verus!
