//! Messages of gateways that speak JSON of the third version of the network server.
//!
//! Those gateways name some fields otherwise than the current messages do. What such a gateway
//! sends gets the current names before it is decoded, and what is sent to it gets the names that
//! it knows.
use vstd::prelude::*;

use serde_json::Value;

use crate::gateway::backend::mqtt::{EventKind, MqttError};
use crate::gateway::backend::registry::{get_v3_downlink_id_by_token, Registry, RegistryView};
use crate::json::{
    array, json, member, member_mut, number, object, parse, parsed, rename_field, renamed,
    set_member, text, to_text, unset_member, written, Json,
};

verus! {

/// The document with `change` applied to its member `name`, where it has one.
pub open spec fn with_changed(
    document: Json,
    name: Seq<char>,
    change: spec_fn(Json) -> Json,
) -> Json {
    match document.member(name) {
        Some(value) => document.with(name, change(value)),
        None => document,
    }
}

/// The document that a `Value` holds, where there is one.
pub open spec fn opt_json(v: Option<Value>) -> Option<Json> {
    match v {
        Some(v) => Some(json(v)),
        None => None,
    }
}

/// The transmission parameters of an uplink, under their current names.
pub open spec fn up_tx_info(tx_info: Json) -> Json {
    with_changed(
        renamed(tx_info, "loRaModulationInfo"@, "loraModulationInfo"@),
        "loraModulationInfo"@,
        |lora_info: Json| renamed(lora_info, "codeRate"@, "codeRateLegacy"@),
    )
}

/// The reception parameters of an uplink, under their current names.
pub open spec fn up_rx_info(rx_info: Json) -> Json {
    let rx_info = renamed(rx_info, "gatewayID"@, "gatewayId"@);
    let rx_info = renamed(rx_info, "loRaSNR"@, "loraSnr"@);
    renamed(rx_info, "uplinkID"@, "uplinkId"@)
}

/// An uplink, under its current names.
pub open spec fn up_event(event: Json) -> Json {
    let event = renamed(event, "txInfo"@, "txInfoLegacy"@);
    let event = renamed(event, "rxInfo"@, "rxInfoLegacy"@);
    let event = with_changed(event, "txInfoLegacy"@, |tx_info: Json| up_tx_info(tx_info));
    with_changed(event, "rxInfoLegacy"@, |rx_info: Json| up_rx_info(rx_info))
}

/// Gateway statistics, under their current names.
pub open spec fn stats_event(event: Json) -> Json {
    let event = renamed(event, "gatewayID"@, "gatewayIdLegacy"@);
    renamed(event, "rxPacketsReceivedOK"@, "rxPacketsReceivedOk"@)
}

/// The token that an acknowledgement carries: the low 32 bits of a whole number.
pub open spec fn ack_token(event: Json) -> Option<u32> {
    match event.member("token"@) {
        Some(Json::Unsigned(n)) => Some((n % 0x1_0000_0000) as u32),
        _ => None,
    }
}

/// The downlink that an acknowledgement is for, as far as the token tells.
pub open spec fn acked_downlink(event: Json, registry: RegistryView) -> Option<u32> {
    match ack_token(event) {
        Some(token) => registry.downlink_id(token),
        None => None,
    }
}

/// The item list of an acknowledgement for a downlink whose only item was sent.
pub open spec fn sent_items() -> Json {
    Json::Array(seq![Json::Object(map!["status"@ => Json::Text("OK"@)])])
}

/// An acknowledgement, under its current names; `downlink_id` is the downlink that it is for.
pub open spec fn ack_event(event: Json, downlink_id: Option<u32>) -> Json {
    let event = renamed(event, "gatewayID"@, "gatewayIdLegacy"@);
    match downlink_id {
        Some(id) => event.with("downlinkId"@, Json::Unsigned(id as u64)).with("items"@, sent_items()),
        None => event,
    }
}

/// A message of a gateway, under its current names.
pub open spec fn event_document(kind: EventKind, event: Json, registry: RegistryView) -> Json {
    match kind {
        EventKind::Up => up_event(event),
        EventKind::Stats => stats_event(event),
        EventKind::Ack => ack_event(event, acked_downlink(event, registry)),
        EventKind::Mesh => event,
    }
}

/// What is remembered after a message: an acknowledgement uses its token up.
pub open spec fn event_registry(
    kind: EventKind,
    event: Json,
    registry: RegistryView,
) -> RegistryView {
    match (kind, ack_token(event)) {
        (EventKind::Ack, Some(token)) => registry.without_token(token),
        _ => registry,
    }
}

/// The transmission parameters of a downlink, under the names of the third version.
pub open spec fn downlink_tx_info(tx_info: Json, gateway_id: Option<Json>) -> Json {
    let tx_info = match gateway_id {
        Some(id) => tx_info.with("gatewayID"@, id).with("gateway_id"@, id),
        None => tx_info,
    };
    let tx_info = renamed(tx_info, "loraModulationInfo"@, "loRaModulationInfo"@);
    let tx_info = if tx_info.member("loRaModulationInfo"@) is Some {
        tx_info.with("modulation"@, Json::Text("LORA"@))
    } else {
        tx_info
    };
    let tx_info = with_changed(
        tx_info,
        "loRaModulationInfo"@,
        |lora_info: Json| renamed(lora_info, "codeRateLegacy"@, "codeRate"@),
    );
    if tx_info.member("immediatelyTimingInfo"@) is Some && tx_info.member("timing"@) is None {
        tx_info.with("timing"@, Json::Text("IMMEDIATELY"@))
    } else {
        tx_info
    }
}

/// A downlink with its identifiers under the names of the third version.
pub open spec fn downlink_identified(downlink: Json) -> Json {
    let downlink = renamed(downlink, "gatewayIdLegacy"@, "gatewayID"@);
    let downlink = match downlink.member("gatewayID"@) {
        Some(id) => downlink.with("gateway_id"@, id),
        None => downlink,
    };
    let downlink = match downlink.member("downlinkId"@) {
        Some(id) => downlink.with("token"@, id),
        None => downlink,
    };
    downlink.without("gatewayId"@).without("downlinkId"@).without("downlinkIdLegacy"@)
}

/// A downlink with its first item, where it has one, in place of its item list.
pub open spec fn downlink_flattened(downlink: Json) -> Json {
    let items = match downlink.member("items"@) {
        Some(items) => items,
        None => Json::Null,
    };
    match items.first() {
        Some(item) => {
            let downlink = match item.member("phyPayload"@) {
                Some(phy_payload) => downlink.with("phyPayload"@, phy_payload),
                None => downlink,
            };
            let downlink = match item.member("txInfoLegacy"@) {
                Some(tx_info) => downlink.with("txInfo"@, tx_info),
                None => downlink,
            };
            downlink.without("items"@)
        },
        None => downlink,
    }
}

/// A downlink, under the names of the third version.
pub open spec fn downlink_document(downlink: Json) -> Json {
    let gateway_id = renamed(downlink, "gatewayIdLegacy"@, "gatewayID"@).member("gatewayID"@);
    with_changed(
        downlink_flattened(downlink_identified(downlink)),
        "txInfo"@,
        |tx_info: Json| downlink_tx_info(tx_info, gateway_id),
    )
}

/// A gateway configuration, under the names of the third version.
pub open spec fn gateway_config_document(config: Json) -> Json {
    renamed(config, "gatewayIdLegacy"@, "gatewayID"@).without("gatewayId"@)
}

/// Gives an uplink its current names.
pub fn normalize_up(v: &mut Value)
    ensures
        json(*final(v)) == up_event(json(*old(v))),
{
    rename_field(v, "txInfo", "txInfoLegacy");
    rename_field(v, "rxInfo", "rxInfoLegacy");

    if let Some(tx_info) = member_mut(v, "txInfoLegacy") {
        rename_field(tx_info, "loRaModulationInfo", "loraModulationInfo");

        if let Some(lora_info) = member_mut(tx_info, "loraModulationInfo") {
            rename_field(lora_info, "codeRate", "codeRateLegacy");
        }
    }

    if let Some(rx_info) = member_mut(v, "rxInfoLegacy") {
        rename_field(rx_info, "gatewayID", "gatewayId");
        rename_field(rx_info, "loRaSNR", "loraSnr");
        rename_field(rx_info, "uplinkID", "uplinkId");
    }
}

/// Gives gateway statistics their current names.
pub fn normalize_stats(v: &mut Value)
    ensures
        json(*final(v)) == stats_event(json(*old(v))),
{
    rename_field(v, "gatewayID", "gatewayIdLegacy");
    rename_field(v, "rxPacketsReceivedOK", "rxPacketsReceivedOk");
}

/// The item list of an acknowledgement for a downlink whose only item was sent.
fn sent_items_value() -> (r: Value)
    ensures
        json(r) == sent_items(),
{
    let mut item = serde_json::Map::<String, Value>::new();
    item.insert("status".to_string(), text("OK"));
    let item = object(item);
    assert(json(item).members() =~= map!["status"@ => Json::Text("OK"@)]);
    let mut items: Vec<Value> = Vec::new();
    items.push(item);
    assert(items@.map_values(|x: Value| json(x)) =~= seq![json(item)]);
    array(items)
}

/// Gives an acknowledgement its current names, and the downlink that its token stands for.
pub fn normalize_ack(v: &mut Value, registry: &mut Registry)
    ensures
        json(*final(v)) == ack_event(
            json(*old(v)),
            acked_downlink(json(*old(v)), old(registry)@),
        ),
        final(registry)@ == event_registry(EventKind::Ack, json(*old(v)), old(registry)@),
        old(registry)@.wf() ==> final(registry)@.wf(),
{
    rename_field(v, "gatewayID", "gatewayIdLegacy");
    proof {
        reveal_strlit("token");
        reveal_strlit("gatewayID");
        reveal_strlit("gatewayIdLegacy");
        assert("token"@.len() != "gatewayID"@.len() && "token"@.len() != "gatewayIdLegacy"@.len());
        assert(json(*v).member("token"@) == json(*old(v)).member("token"@));
    }
    if let Some(token) = member(v, "token") {
        if let Some(token) = token.as_u64() {
            assert(token as u32 == token % 0x1_0000_0000) by (bit_vector);
            if let Some(downlink_id) = get_v3_downlink_id_by_token(registry, token as u32) {
                set_member(v, "downlinkId", number(downlink_id));
                set_member(v, "items", sent_items_value());
            }
        }
    }
}

/// Gives a message of a gateway its current names.
pub fn normalize_event(kind: EventKind, v: &mut Value, registry: &mut Registry)
    ensures
        json(*final(v)) == event_document(kind, json(*old(v)), old(registry)@),
        final(registry)@ == event_registry(kind, json(*old(v)), old(registry)@),
        old(registry)@.wf() ==> final(registry)@.wf(),
{
    match kind {
        EventKind::Up => normalize_up(v),
        EventKind::Stats => normalize_stats(v),
        EventKind::Ack => normalize_ack(v, registry),
        EventKind::Mesh => {},
    }
}

/// Reads a message of a gateway and writes it under its current names.
pub fn normalize_v3_json_payload(kind: EventKind, b: &[u8], registry: &mut Registry) -> (r: Result<
    Vec<u8>,
    MqttError,
>)
    ensures
        match parsed(b@) {
            Some(event) => {
                &&& r is Ok
                &&& r->Ok_0@ == written(event_document(kind, event, old(registry)@))
                &&& final(registry)@ == event_registry(kind, event, old(registry)@)
            },
            None => r is Err && r->Err_0 is Json && final(registry)@ == old(registry)@,
        },
        old(registry)@.wf() ==> final(registry)@.wf(),
{
    let mut v = match parse(b) {
        Ok(v) => v,
        Err(e) => return Err(MqttError::Json(e)),
    };
    normalize_event(kind, &mut v, registry);
    match to_text(&v) {
        Ok(b) => Ok(b),
        Err(e) => Err(MqttError::Json(e)),
    }
}

/// Gives the transmission parameters of a downlink the names of the third version.
pub fn normalize_v3_downlink_tx_info(tx_info: &mut Value, gateway_id: &Option<Value>)
    ensures
        json(*final(tx_info)) == downlink_tx_info(json(*old(tx_info)), opt_json(*gateway_id)),
{
    if let Some(gateway_id) = gateway_id {
        set_member(tx_info, "gatewayID", gateway_id.clone());
        set_member(tx_info, "gateway_id", gateway_id.clone());
    }

    rename_field(tx_info, "loraModulationInfo", "loRaModulationInfo");

    if member(tx_info, "loRaModulationInfo").is_some() {
        set_member(tx_info, "modulation", text("LORA"));
    }

    if let Some(lora_info) = member_mut(tx_info, "loRaModulationInfo") {
        rename_field(lora_info, "codeRateLegacy", "codeRate");
    }

    if member(tx_info, "immediatelyTimingInfo").is_some() && member(tx_info, "timing").is_none() {
        set_member(tx_info, "timing", text("IMMEDIATELY"));
    }
}

/// A copy of the first element, where the document is an array that has one.
fn first_element(v: &Value) -> (r: Option<Value>)
    ensures
        opt_json(r) == json(*v).first(),
{
    match v.as_array() {
        Some(elements) => if elements.len() > 0 {
            Some(elements[0].clone())
        } else {
            None
        },
        None => None,
    }
}

/// A copy of the member `name`, where there is one.
fn member_copy(v: &Value, name: &str) -> (r: Option<Value>)
    ensures
        opt_json(r) == json(*v).member(name@),
{
    match member(v, name) {
        Some(value) => Some(value.clone()),
        None => None,
    }
}

/// Gives a downlink the names of the third version.
pub fn normalize_downlink(v: &mut Value)
    ensures
        json(*final(v)) == downlink_document(json(*old(v))),
{
    rename_field(v, "gatewayIdLegacy", "gatewayID");
    let gateway_id = member_copy(v, "gatewayID");
    if let Some(gateway_id) = &gateway_id {
        set_member(v, "gateway_id", gateway_id.clone());
    }

    if let Some(downlink_id) = member_copy(v, "downlinkId") {
        set_member(v, "token", downlink_id);
    }

    unset_member(v, "gatewayId");
    unset_member(v, "downlinkId");
    unset_member(v, "downlinkIdLegacy");
    assert(json(*v) == downlink_identified(json(*old(v))));

    let first_item = match member(v, "items") {
        Some(items) => first_element(items),
        None => None,
    };
    if let Some(first_item) = first_item {
        if let Some(phy_payload) = member_copy(&first_item, "phyPayload") {
            set_member(v, "phyPayload", phy_payload);
        }

        if let Some(tx_info) = member_copy(&first_item, "txInfoLegacy") {
            set_member(v, "txInfo", tx_info);
        }

        unset_member(v, "items");
    }

    if let Some(tx_info) = member_mut(v, "txInfo") {
        normalize_v3_downlink_tx_info(tx_info, &gateway_id);
    }
}

/// Reads a downlink and writes it under the names of the third version.
pub fn normalize_v3_downlink_json_payload(b: &[u8]) -> (r: Result<Vec<u8>, MqttError>)
    ensures
        match parsed(b@) {
            Some(downlink) => r is Ok && r->Ok_0@ == written(downlink_document(downlink)),
            None => r is Err && r->Err_0 is Json,
        },
{
    let mut v = match parse(b) {
        Ok(v) => v,
        Err(e) => return Err(MqttError::Json(e)),
    };
    normalize_downlink(&mut v);
    match to_text(&v) {
        Ok(b) => Ok(b),
        Err(e) => Err(MqttError::Json(e)),
    }
}

/// Gives a gateway configuration the names of the third version.
pub fn normalize_gateway_config(v: &mut Value)
    ensures
        json(*final(v)) == gateway_config_document(json(*old(v))),
{
    rename_field(v, "gatewayIdLegacy", "gatewayID");
    unset_member(v, "gatewayId");
}

/// Reads a gateway configuration and writes it under the names of the third version.
pub fn normalize_v3_gateway_config_json_payload(b: &[u8]) -> (r: Result<Vec<u8>, MqttError>)
    ensures
        match parsed(b@) {
            Some(config) => r is Ok && r->Ok_0@ == written(gateway_config_document(config)),
            None => r is Err && r->Err_0 is Json,
        },
{
    let mut v = match parse(b) {
        Ok(v) => v,
        Err(e) => return Err(MqttError::Json(e)),
    };
    normalize_gateway_config(&mut v);
    match to_text(&v) {
        Ok(b) => Ok(b),
        Err(e) => Err(MqttError::Json(e)),
    }
}

/// The names of the members differ from one another.
pub(crate) proof fn lemma_names()
    ensures
        "gatewayIdLegacy"@.len() == 15,
        "downlinkIdLegacy"@.len() == 16,
        "gatewayID"@.len() == 9 && "gatewayID"@[8] == 'D',
        "gatewayId"@.len() == 9 && "gatewayId"@[8] == 'd',
        "gateway_id"@.len() == 10 && "gateway_id"@[0] == 'g',
        "downlinkId"@.len() == 10 && "downlinkId"@[0] == 'd',
        "phyPayload"@.len() == 10 && "phyPayload"@[0] == 'p',
        "token"@.len() == 5 && "token"@[0] == 't',
        "items"@.len() == 5 && "items"@[0] == 'i',
        "txInfo"@.len() == 6 && "txInfo"@[0] == 't',
        "rxInfo"@.len() == 6 && "rxInfo"@[0] == 'r',
        "txInfoLegacy"@.len() == 12 && "txInfoLegacy"@[0] == 't',
        "rxInfoLegacy"@.len() == 12 && "rxInfoLegacy"@[0] == 'r',
        "loRaModulationInfo"@.len() == 18 && "loRaModulationInfo"@[2] == 'R',
        "loraModulationInfo"@.len() == 18 && "loraModulationInfo"@[2] == 'r',
        "codeRate"@.len() == 8,
        "codeRateLegacy"@.len() == 14,
        "loRaSNR"@.len() == 7 && "loRaSNR"@[2] == 'R',
        "loraSnr"@.len() == 7 && "loraSnr"@[2] == 'r',
        "uplinkID"@.len() == 8 && "uplinkID"@[7] == 'D',
        "uplinkId"@.len() == 8 && "uplinkId"@[7] == 'd',
        "rxPacketsReceivedOK"@.len() == 19 && "rxPacketsReceivedOK"@[18] == 'K',
        "rxPacketsReceivedOk"@.len() == 19 && "rxPacketsReceivedOk"@[18] == 'k',
        "modulation"@.len() == 10 && "modulation"@[0] == 'm',
        "timing"@.len() == 6 && "timing"@[0] == 't' && "timing"@[1] == 'i',
        "immediatelyTimingInfo"@.len() == 21,
{
    reveal_strlit("gatewayIdLegacy");
    reveal_strlit("downlinkIdLegacy");
    reveal_strlit("gatewayID");
    reveal_strlit("gatewayId");
    reveal_strlit("gateway_id");
    reveal_strlit("downlinkId");
    reveal_strlit("phyPayload");
    reveal_strlit("token");
    reveal_strlit("items");
    reveal_strlit("txInfo");
    reveal_strlit("rxInfo");
    reveal_strlit("txInfoLegacy");
    reveal_strlit("rxInfoLegacy");
    reveal_strlit("loRaModulationInfo");
    reveal_strlit("loraModulationInfo");
    reveal_strlit("codeRate");
    reveal_strlit("codeRateLegacy");
    reveal_strlit("loRaSNR");
    reveal_strlit("loraSnr");
    reveal_strlit("uplinkID");
    reveal_strlit("uplinkId");
    reveal_strlit("rxPacketsReceivedOK");
    reveal_strlit("rxPacketsReceivedOk");
    reveal_strlit("modulation");
    reveal_strlit("timing");
    reveal_strlit("immediatelyTimingInfo");
}

/// A downlink as a gateway of the third version gets it: it is identified by the token that its
/// number was, it names the gateway in the two ways that those gateways know, and the current names
/// of these are gone. Whatever else it holds stays, but for its items, its payload and its
/// transmission parameters.
pub proof fn law_downlink_is_identified(downlink: Json, other: Seq<char>)
    requires
        downlink is Object,
        other != "gatewayIdLegacy"@ && other != "gatewayID"@ && other != "gateway_id"@,
        other != "gatewayId"@ && other != "downlinkId"@ && other != "downlinkIdLegacy"@,
        other != "token"@ && other != "items"@ && other != "phyPayload"@ && other != "txInfo"@,
    ensures
        ({
            let document = downlink_document(downlink);
            let gateway_id = if downlink.member("gatewayID"@) is Some {
                downlink.member("gatewayID"@)
            } else {
                downlink.member("gatewayIdLegacy"@)
            };
            &&& downlink.member("downlinkId"@) is Some ==> document.member("token"@)
                == downlink.member("downlinkId"@)
            &&& gateway_id is Some ==> {
                &&& document.member("gatewayID"@) == gateway_id
                &&& document.member("gateway_id"@) == gateway_id
            }
            &&& document.member("gatewayId"@) is None
            &&& document.member("downlinkId"@) is None
            &&& document.member("downlinkIdLegacy"@) is None
            &&& document.member(other) == downlink.member(other)
        }),
{
    lemma_names();
}

/// A gateway of the third version gets the first item of a downlink in place of the item list: the
/// payload of that item, and its transmission parameters under the names that the gateway knows.
pub proof fn law_downlink_is_flattened(downlink: Json)
    requires
        downlink.member("items"@) is Some,
        downlink.member("items"@)->0.first() is Some,
    ensures
        ({
            let document = downlink_document(downlink);
            let item = downlink.member("items"@)->0.first()->0;
            let gateway_id = renamed(downlink, "gatewayIdLegacy"@, "gatewayID"@).member(
                "gatewayID"@,
            );
            &&& document.member("items"@) is None
            &&& item.member("phyPayload"@) is Some ==> document.member("phyPayload"@)
                == item.member("phyPayload"@)
            &&& item.member("txInfoLegacy"@) matches Some(tx_info) ==> document.member("txInfo"@)
                == Some(downlink_tx_info(tx_info, gateway_id))
        }),
{
    lemma_names();
}

/// A gateway of the third version gets no item of a downlink in an item list: a list that is still
/// there has no items.
pub proof fn law_downlink_has_no_items(downlink: Json)
    ensures
        downlink_document(downlink).member("items"@) matches Some(items) ==> items.first() is None,
{
    lemma_names();
}

/// An acknowledgement that carries back the token of a downlink is for that downlink, as long as no
/// later downlink was given the same low 16 bits; it then says that the downlink was sent. A second
/// acknowledgement with that token is for no downlink.
pub proof fn law_acknowledged_downlink(
    registry: RegistryView,
    downlink: Json,
    downlink_id: u32,
    event: Json,
)
    requires
        downlink.member("downlinkId"@) == Some(Json::Unsigned(downlink_id as u64)),
        event.member("token"@) == downlink_document(downlink).member("token"@),
    ensures
        ({
            let sent = registry.with_token(downlink_id, downlink_id);
            let document = event_document(EventKind::Ack, event, sent);
            let after = event_registry(EventKind::Ack, event, sent);
            &&& document.member("downlinkId"@) == Some(Json::Unsigned(downlink_id as u64))
            &&& document.member("items"@) == Some(sent_items())
            &&& acked_downlink(event, after) is None
        }),
{
    lemma_names();
    assert(downlink_document(downlink).member("token"@) == downlink.member("downlinkId"@));
    assert(ack_token(event) == Some(downlink_id));
}

/// Of a token, the low 16 bits decide: an acknowledgement is for the downlink that was last sent
/// with the same ones, whatever the higher bits are.
pub proof fn law_token_goes_by_low_bits(registry: RegistryView, downlink_id: u32, event: Json, n: u64)
    requires
        event.member("token"@) == Some(Json::Unsigned(n)),
    ensures
        n % 0x1_0000 == downlink_id % 0x1_0000 ==> acked_downlink(
            event,
            registry.with_token(downlink_id, downlink_id),
        ) == Some(downlink_id),
        n % 0x1_0000 != downlink_id % 0x1_0000 ==> acked_downlink(
            event,
            registry.with_token(downlink_id, downlink_id),
        ) == acked_downlink(event, registry),
{
    assert((n % 0x1_0000_0000) % 0x1_0000 == n % 0x1_0000);
}

/// To give a message other names twice is to give it them once. (An acknowledgement that is for a
/// downlink finds its token used up.)
pub proof fn law_names_are_given_once(event: Json)
    ensures
        up_event(up_event(event)) == up_event(event),
        stats_event(stats_event(event)) == stats_event(event),
        ack_event(ack_event(event, None), None) == ack_event(event, None),
        gateway_config_document(gateway_config_document(event)) == gateway_config_document(event),
        downlink_document(downlink_document(event)) == downlink_document(event),
{
    lemma_names();
    lemma_up_twice(event);
    lemma_downlink_twice(event);
    let stats = stats_event(event);
    assert(stats_event(stats).members() =~= stats.members());
    let config = gateway_config_document(event);
    assert(gateway_config_document(config).members() =~= config.members());
}

proof fn lemma_tx_info_twice(tx_info: Json)
    ensures
        up_tx_info(up_tx_info(tx_info)) == up_tx_info(tx_info),
{
    lemma_names();
    let once = up_tx_info(tx_info);
    if let Some(lora_info) = once.member("loraModulationInfo"@) {
        assert(renamed(lora_info, "codeRate"@, "codeRateLegacy"@) == lora_info);
        assert(renamed(once, "loRaModulationInfo"@, "loraModulationInfo"@) == once);
        assert(up_tx_info(once) == once.with("loraModulationInfo"@, lora_info));
        assert(up_tx_info(once).members() =~= once.members());
    }
}

proof fn lemma_up_twice(event: Json)
    ensures
        up_event(up_event(event)) == up_event(event),
{
    lemma_names();
    let up = up_event(event);
    let named = renamed(renamed(event, "txInfo"@, "txInfoLegacy"@), "rxInfo"@, "rxInfoLegacy"@);
    if let Some(tx_info) = named.member("txInfoLegacy"@) {
        lemma_tx_info_twice(tx_info);
        assert(up.member("txInfoLegacy"@) == Some(up_tx_info(tx_info)));
    }
    if let Some(rx_info) = up.member("rxInfoLegacy"@) {
        assert(up_rx_info(rx_info) == rx_info);
    }
    assert(up_event(up).members() =~= up.members());
}

proof fn lemma_downlink_tx_info_twice(tx_info: Json, gateway_id: Option<Json>)
    ensures
        downlink_tx_info(downlink_tx_info(tx_info, gateway_id), gateway_id) == downlink_tx_info(
            tx_info,
            gateway_id,
        ),
{
    lemma_names();
    let once = downlink_tx_info(tx_info, gateway_id);
    if let Some(lora_info) = once.member("loRaModulationInfo"@) {
        assert(renamed(lora_info, "codeRateLegacy"@, "codeRate"@) == lora_info);
    }
    assert(downlink_tx_info(once, gateway_id).members() =~= once.members());
}

proof fn lemma_downlink_twice(downlink: Json)
    ensures
        downlink_document(downlink_document(downlink)) == downlink_document(downlink),
{
    lemma_names();
    let once = downlink_document(downlink);
    let gateway_id = renamed(downlink, "gatewayIdLegacy"@, "gatewayID"@).member("gatewayID"@);
    assert(renamed(once, "gatewayIdLegacy"@, "gatewayID"@).member("gatewayID"@) == gateway_id);
    assert(downlink_identified(once).members() =~= once.members());
    assert(downlink_flattened(once) == once);
    let flattened = downlink_flattened(downlink_identified(downlink));
    if let Some(tx_info) = flattened.member("txInfo"@) {
        lemma_downlink_tx_info_twice(tx_info, gateway_id);
    }
    assert(downlink_document(once).members() =~= once.members());
}

} // verus!
