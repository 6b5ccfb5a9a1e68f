//! Messages of gateways of the third version: which of their members get another name or value, and
//! that all others are kept.
use vstd::prelude::*;

use serde_json::Value;

use crate::gateway::backend::mqtt::{
    configuration_payload, downlink_payload, Encoding, EventKind, MqttError,
};
use crate::gateway::backend::registry::{Registry, RegistryView};
use crate::gateway::backend::v3_json::{
    downlink_document, downlink_flattened, downlink_identified, downlink_tx_info, event_document,
    gateway_config_document, lemma_names, normalize_ack, normalize_downlink, normalize_event,
    normalize_gateway_config, normalize_stats, normalize_up, normalize_v3_downlink_json_payload,
    normalize_v3_downlink_tx_info, normalize_v3_gateway_config_json_payload,
    normalize_v3_json_payload, sent_items, up_event, up_rx_info, up_tx_info,
};
use crate::json::{json, parsed, rename_field, renamed, set_member, unset_member, written, Json};

verus! {

/// Whether a member is the same in two documents.
pub open spec fn kept(before: Json, after: Json, name: Seq<char>) -> bool {
    after.member(name) == before.member(name)
}

/// Whether the members of a document are the same but for those in `names`. A document that is no
/// object is the same altogether.
pub open spec fn kept_but(before: Json, after: Json, names: Set<Seq<char>>) -> bool {
    &&& after is Object <==> before is Object
    &&& !(before is Object) ==> after == before
    &&& forall|name: Seq<char>| !names.contains(name) ==> #[trigger] kept(before, after, name)
}

/// Whether a member is to get another name: it is there, and the other name is free.
pub open spec fn moves(before: Json, old_name: Seq<char>, new_name: Seq<char>) -> bool {
    before.member(old_name) is Some && before.member(new_name) is None
}

/// Whether a member has got another name, if it is to get one.
pub open spec fn moved(before: Json, after: Json, old_name: Seq<char>, new_name: Seq<char>) -> bool {
    if moves(before, old_name, new_name) {
        after.member(new_name) == before.member(old_name) && after.member(old_name) is None
    } else {
        kept(before, after, old_name) && kept(before, after, new_name)
    }
}

/// The value that is under one of two names in the end.
pub open spec fn settled(before: Json, old_name: Seq<char>, new_name: Seq<char>) -> Option<Json> {
    if before.member(new_name) is Some {
        before.member(new_name)
    } else {
        before.member(old_name)
    }
}

/// What a rename does.
pub proof fn law_rename_field(v: &mut Value, old_name: &str, new_name: &str)
    requires
        call_ensures(rename_field, (v, old_name, new_name), ()),
        old_name@ != new_name@,
    ensures
        kept_but(json(*old(v)), json(*final(v)), set![old_name@, new_name@]),
        moved(json(*old(v)), json(*final(v)), old_name@, new_name@),
{
}

/// What it is to set a member.
pub proof fn law_set_member(v: &mut Value, name: &str, value: Value)
    requires
        call_ensures(set_member, (v, name, value), ()),
    ensures
        kept_but(json(*old(v)), json(*final(v)), set![name@]),
        json(*old(v)) is Object ==> json(*final(v)).member(name@) == Some(json(value)),
{
}

/// What it is to unset a member.
pub proof fn law_unset_member(v: &mut Value, name: &str)
    requires
        call_ensures(unset_member, (v, name), ()),
    ensures
        kept_but(json(*old(v)), json(*final(v)), set![name@]),
        json(*final(v)).member(name@) is None,
{
}

/// Whether LoRa modulation parameters have another name for their code rate, and are the same
/// otherwise.
pub open spec fn code_rate_moved(
    before: Json,
    after: Json,
    old_name: Seq<char>,
    new_name: Seq<char>,
) -> bool {
    kept_but(before, after, set![old_name, new_name]) && moved(before, after, old_name, new_name)
}

/// Whether the transmission parameters of an uplink have their current names: the LoRa modulation
/// parameters and their code rate alone are touched.
pub open spec fn current_tx_info(before: Json, after: Json) -> bool {
    let (old_name, new_name) = ("loRaModulationInfo"@, "loraModulationInfo"@);
    &&& kept_but(before, after, set![old_name, new_name])
    &&& after.member(old_name) == (if moves(before, old_name, new_name) {
        None
    } else {
        before.member(old_name)
    })
    &&& match settled(before, old_name, new_name) {
        Some(lora) => after.member(new_name) is Some && code_rate_moved(
            lora,
            after.member(new_name)->0,
            "codeRate"@,
            "codeRateLegacy"@,
        ),
        None => after.member(new_name) is None,
    }
}

/// Whether the reception parameters of an uplink have their current names: three members are
/// touched.
pub open spec fn current_rx_info(before: Json, after: Json) -> bool {
    &&& kept_but(
        before,
        after,
        set![
            "gatewayID"@,
            "gatewayId"@,
            "loRaSNR"@,
            "loraSnr"@,
            "uplinkID"@,
            "uplinkId"@,
        ],
    )
    &&& moved(before, after, "gatewayID"@, "gatewayId"@)
    &&& moved(before, after, "loRaSNR"@, "loraSnr"@)
    &&& moved(before, after, "uplinkID"@, "uplinkId"@)
}

/// Whether an uplink has its current names: its transmission and reception parameters alone are
/// touched.
pub open spec fn current_uplink(before: Json, after: Json) -> bool {
    &&& kept_but(
        before,
        after,
        set!["txInfo"@, "txInfoLegacy"@, "rxInfo"@, "rxInfoLegacy"@],
    )
    &&& after.member("txInfo"@) == (if moves(before, "txInfo"@, "txInfoLegacy"@) {
        None
    } else {
        before.member("txInfo"@)
    })
    &&& match settled(before, "txInfo"@, "txInfoLegacy"@) {
        Some(tx_info) => after.member("txInfoLegacy"@) is Some && current_tx_info(
            tx_info,
            after.member("txInfoLegacy"@)->0,
        ),
        None => after.member("txInfoLegacy"@) is None,
    }
    &&& after.member("rxInfo"@) == (if moves(before, "rxInfo"@, "rxInfoLegacy"@) {
        None
    } else {
        before.member("rxInfo"@)
    })
    &&& match settled(before, "rxInfo"@, "rxInfoLegacy"@) {
        Some(rx_info) => after.member("rxInfoLegacy"@) is Some && current_rx_info(
            rx_info,
            after.member("rxInfoLegacy"@)->0,
        ),
        None => after.member("rxInfoLegacy"@) is None,
    }
}

/// Whether gateway statistics have their current names: two members are touched.
pub open spec fn current_stats(before: Json, after: Json) -> bool {
    &&& kept_but(
        before,
        after,
        set![
            "gatewayID"@,
            "gatewayIdLegacy"@,
            "rxPacketsReceivedOK"@,
            "rxPacketsReceivedOk"@,
        ],
    )
    &&& moved(before, after, "gatewayID"@, "gatewayIdLegacy"@)
    &&& moved(before, after, "rxPacketsReceivedOK"@, "rxPacketsReceivedOk"@)
}

/// Whether a document is the item list of an acknowledgement for a downlink whose only item was
/// sent.
pub open spec fn says_sent(items: Json) -> bool {
    &&& items matches Json::Array(elements)
    &&& elements.len() == 1
    &&& elements[0] is Object
    &&& elements[0].member("status"@) == Some(Json::Text("OK"@))
    &&& forall|name: Seq<char>| name != "status"@ ==> (#[trigger] elements[0].member(name)) is None
}

/// The downlink that a token stands for: of the token, which is a whole number, the low 16 bits
/// count.
pub open spec fn token_of(before: Json, tokens: Map<u32, u32>) -> Option<u32> {
    match before.member("token"@) {
        Some(Json::Unsigned(n)) => {
            let slot = (n % 0x1_0000) as u32;
            if tokens.contains_key(slot) {
                Some(tokens[slot])
            } else {
                None
            }
        },
        _ => None,
    }
}

/// Whether an acknowledgement has its current names and, where its token stands for a downlink, says
/// that this downlink was sent.
pub open spec fn current_ack(before: Json, after: Json, downlink_id: Option<u32>) -> bool {
    &&& kept_but(
        before,
        after,
        set!["gatewayID"@, "gatewayIdLegacy"@, "downlinkId"@, "items"@],
    )
    &&& moved(before, after, "gatewayID"@, "gatewayIdLegacy"@)
    &&& match downlink_id {
        Some(id) => {
            &&& after.member("downlinkId"@) == Some(Json::Unsigned(id as u64))
            &&& after.member("items"@) is Some
            &&& says_sent(after.member("items"@)->0)
        },
        None => kept(before, after, "downlinkId"@) && kept(before, after, "items"@),
    }
}

/// Whether a message of a gateway has its current names.
pub open spec fn current_event(
    kind: EventKind,
    before: Json,
    after: Json,
    tokens: Map<u32, u32>,
) -> bool {
    match kind {
        EventKind::Up => current_uplink(before, after),
        EventKind::Stats => current_stats(before, after),
        EventKind::Ack => current_ack(before, after, token_of(before, tokens)),
        EventKind::Mesh => after == before,
    }
}

/// The tokens that are left after a message: an acknowledgement uses up the one that it carries.
pub open spec fn tokens_left(kind: EventKind, before: Json, tokens: Map<u32, u32>) -> Map<u32, u32> {
    match (kind, before.member("token"@)) {
        (EventKind::Ack, Some(Json::Unsigned(n))) => tokens.remove((n % 0x1_0000) as u32),
        _ => tokens,
    }
}

/// Whether the transmission parameters of a downlink have the names of the third version: the
/// gateway, the modulation and the timing are told where they are not, and all else is kept.
pub open spec fn third_version_tx_info(before: Json, after: Json, gateway_id: Option<Json>) -> bool {
    let (old_name, new_name) = ("loraModulationInfo"@, "loRaModulationInfo"@);
    &&& kept_but(
        before,
        after,
        set![
            "gatewayID"@,
            "gateway_id"@,
            "loraModulationInfo"@,
            "loRaModulationInfo"@,
            "modulation"@,
            "timing"@,
        ],
    )
    &&& before is Object ==> {
        &&& match gateway_id {
            Some(id) => {
                &&& after.member("gatewayID"@) == Some(id)
                &&& after.member("gateway_id"@) == Some(id)
            },
            None => kept(before, after, "gatewayID"@) && kept(before, after, "gateway_id"@),
        }
        &&& after.member(old_name) == (if moves(before, old_name, new_name) {
            None
        } else {
            before.member(old_name)
        })
        &&& match settled(before, old_name, new_name) {
            Some(lora) => {
                &&& after.member(new_name) is Some
                &&& code_rate_moved(
                    lora,
                    after.member(new_name)->0,
                    "codeRateLegacy"@,
                    "codeRate"@,
                )
                &&& after.member("modulation"@) == Some(Json::Text("LORA"@))
            },
            None => after.member(new_name) is None && kept(before, after, "modulation"@),
        }
        &&& if before.member("timing"@) is None && before.member("immediatelyTimingInfo"@) is Some {
            after.member("timing"@) == Some(Json::Text("IMMEDIATELY"@))
        } else {
            kept(before, after, "timing"@)
        }
    }
}

/// Whether a member is `value` where there is one, and is kept otherwise.
pub open spec fn set_or_kept(
    before: Json,
    after: Json,
    name: Seq<char>,
    value: Option<Json>,
) -> bool {
    if value is Some {
        after.member(name) == value
    } else {
        kept(before, after, name)
    }
}

/// The first item of a downlink, where it has a list of items that has one.
pub open spec fn first_item(downlink: Json) -> Option<Json> {
    match downlink.member("items"@) {
        Some(Json::Array(items)) => if items.len() > 0 {
            Some(items[0])
        } else {
            None
        },
        _ => None,
    }
}

/// Whether a downlink has the names of the third version: it is identified by a token, it names the
/// gateway in two ways, its first item stands in place of the list, and all else is kept.
pub open spec fn third_version_downlink(before: Json, after: Json) -> bool {
    let gateway_id = settled(before, "gatewayIdLegacy"@, "gatewayID"@);
    let item = first_item(before);
    let (payload, item_tx_info) = match item {
        Some(item) => (item.member("phyPayload"@), item.member("txInfoLegacy"@)),
        None => (None, None),
    };
    let tx_info = if item_tx_info is Some {
        item_tx_info
    } else {
        before.member("txInfo"@)
    };
    &&& kept_but(
        before,
        after,
        set![
            "gatewayIdLegacy"@,
            "gatewayID"@,
            "gateway_id"@,
            "gatewayId"@,
            "downlinkId"@,
            "downlinkIdLegacy"@,
            "token"@,
            "items"@,
            "phyPayload"@,
            "txInfo"@,
        ],
    )
    &&& moved(before, after, "gatewayIdLegacy"@, "gatewayID"@)
    &&& set_or_kept(before, after, "gateway_id"@, gateway_id)
    &&& set_or_kept(before, after, "token"@, before.member("downlinkId"@))
    &&& after.member("gatewayId"@) is None
    &&& after.member("downlinkId"@) is None
    &&& after.member("downlinkIdLegacy"@) is None
    &&& if item is Some {
        after.member("items"@) is None
    } else {
        kept(before, after, "items"@)
    }
    &&& set_or_kept(before, after, "phyPayload"@, payload)
    &&& match tx_info {
        Some(tx_info) => after.member("txInfo"@) is Some && third_version_tx_info(
            tx_info,
            after.member("txInfo"@)->0,
            gateway_id,
        ),
        None => after.member("txInfo"@) is None,
    }
}

/// Whether a gateway configuration has the names of the third version: it names the gateway in the
/// way of that version alone, and all else is kept.
pub open spec fn third_version_config(before: Json, after: Json) -> bool {
    &&& kept_but(before, after, set!["gatewayIdLegacy"@, "gatewayID"@, "gatewayId"@])
    &&& moved(before, after, "gatewayIdLegacy"@, "gatewayID"@)
    &&& after.member("gatewayId"@) is None
}

proof fn lemma_lora(lora: Json, old_name: Seq<char>, new_name: Seq<char>)
    requires
        old_name != new_name,
    ensures
        code_rate_moved(lora, renamed(lora, old_name, new_name), old_name, new_name),
{
}

proof fn lemma_current_tx_info(tx_info: Json)
    ensures
        current_tx_info(tx_info, up_tx_info(tx_info)),
{
    lemma_names();
    if let Some(lora) = settled(tx_info, "loRaModulationInfo"@, "loraModulationInfo"@) {
        lemma_lora(lora, "codeRate"@, "codeRateLegacy"@);
    }
}

proof fn lemma_current_rx_info(rx_info: Json)
    ensures
        current_rx_info(rx_info, up_rx_info(rx_info)),
{
    lemma_names();
}

proof fn lemma_current_uplink(event: Json)
    ensures
        current_uplink(event, up_event(event)),
{
    lemma_names();
    if let Some(tx_info) = settled(event, "txInfo"@, "txInfoLegacy"@) {
        lemma_current_tx_info(tx_info);
    }
    if let Some(rx_info) = settled(event, "rxInfo"@, "rxInfoLegacy"@) {
        lemma_current_rx_info(rx_info);
    }
}

/// Of a token, the low 16 bits are those of its low 32 bits.
pub(crate) proof fn lemma_token_bits(event: Json)
    ensures
        event.member("token"@) matches Some(Json::Unsigned(n)) ==> (n % 0x1_0000_0000) % 0x1_0000
            == n % 0x1_0000,
{
}

pub(crate) proof fn lemma_current_event(kind: EventKind, event: Json, registry: RegistryView)
    ensures
        current_event(kind, event, event_document(kind, event, registry), registry.tokens),
{
    lemma_names();
    lemma_current_uplink(event);
    lemma_token_bits(event);
    assert(says_sent(sent_items()));
}

proof fn lemma_third_version_tx_info(tx_info: Json, gateway_id: Option<Json>)
    ensures
        third_version_tx_info(tx_info, downlink_tx_info(tx_info, gateway_id), gateway_id),
{
    lemma_names();
    if let Some(lora) = settled(tx_info, "loraModulationInfo"@, "loRaModulationInfo"@) {
        lemma_lora(lora, "codeRateLegacy"@, "codeRate"@);
    }
}

proof fn lemma_third_version_downlink(downlink: Json)
    ensures
        third_version_downlink(downlink, downlink_document(downlink)),
{
    lemma_names();
    let gateway_id = settled(downlink, "gatewayIdLegacy"@, "gatewayID"@);
    let flattened = downlink_flattened(downlink_identified(downlink));
    assert(first_item(downlink) == first_item(downlink_identified(downlink)));
    if let Some(tx_info) = flattened.member("txInfo"@) {
        lemma_third_version_tx_info(tx_info, gateway_id);
    }
}

/// The transmission parameters of a downlink get members set or renamed; none is lost.
pub proof fn law_downlink_tx_info(tx_info: &mut Value, gateway_id: &Option<Value>)
    requires
        call_ensures(normalize_v3_downlink_tx_info, (tx_info, gateway_id), ()),
    ensures
        third_version_tx_info(
            json(*old(tx_info)),
            json(*final(tx_info)),
            match *gateway_id {
                Some(id) => Some(json(id)),
                None => None,
            },
        ),
{
    lemma_third_version_tx_info(
        json(*old(tx_info)),
        match *gateway_id {
            Some(id) => Some(json(id)),
            None => None,
        },
    );
}

/// What the transmission parameters of a downlink say of anything but the gateway, the modulation and
/// the timing is said afterwards as it was before; so is a timing, and whatever the LoRa modulation
/// parameters say of anything but the code rate.
pub proof fn law_downlink_tx_info_keeps_the_rest(
    tx_info: &mut Value,
    gateway_id: &Option<Value>,
    name: Seq<char>,
)
    requires
        call_ensures(normalize_v3_downlink_tx_info, (tx_info, gateway_id), ()),
    ensures
        ({
            let (before, after) = (json(*old(tx_info)), json(*final(tx_info)));
            &&& name != "gatewayID"@ && name != "gateway_id"@ && name != "loraModulationInfo"@ && name
                != "loRaModulationInfo"@ && name != "modulation"@ && name != "timing"@
                ==> after.member(name) == before.member(name)
            &&& before.member("timing"@) is Some ==> after.member("timing"@) == before.member(
                "timing"@,
            )
            &&& before.member("loraModulationInfo"@) is Some && before.member(
                "loRaModulationInfo"@,
            ) is None && name != "codeRate"@ && name != "codeRateLegacy"@ ==> {
                &&& after.member("loRaModulationInfo"@) is Some
                &&& after.member("loRaModulationInfo"@)->0.member(name) == before.member(
                    "loraModulationInfo"@,
                )->0.member(name)
            }
        }),
{
    let (before, after) = (json(*old(tx_info)), json(*final(tx_info)));
    law_downlink_tx_info(tx_info, gateway_id);
    assert(kept(before, after, name) == (after.member(name) == before.member(name)));
    if let Some(lora) = settled(before, "loraModulationInfo"@, "loRaModulationInfo"@) {
        assert(kept(lora, after.member("loRaModulationInfo"@)->0, name) == (after.member(
            "loRaModulationInfo"@,
        )->0.member(name) == lora.member(name)));
    }
}

/// An uplink keeps all that it holds, and each value has the name that it has today.
pub proof fn law_uplink(v: &mut Value)
    requires
        call_ensures(normalize_up, (v,), ()),
    ensures
        current_uplink(json(*old(v)), json(*final(v))),
{
    lemma_current_uplink(json(*old(v)));
}

/// What an uplink says of its reception under the old name, it says under the current one: three
/// members are renamed, and all others are kept. So it is with the transmission, of which the LoRa
/// modulation parameters alone are renamed. Whatever else the uplink says is kept.
pub proof fn law_uplink_keeps_the_rest(v: &mut Value, name: Seq<char>)
    requires
        call_ensures(normalize_up, (v,), ()),
        json(*old(v)).member("rxInfo"@) is Some,
        json(*old(v)).member("rxInfoLegacy"@) is None,
        json(*old(v)).member("txInfo"@) is Some,
        json(*old(v)).member("txInfoLegacy"@) is None,
    ensures
        ({
            let (before, after) = (json(*old(v)), json(*final(v)));
            let (rx_before, tx_before) = (before.member("rxInfo"@)->0, before.member("txInfo"@)->0);
            let (rx_after, tx_after) = (
                after.member("rxInfoLegacy"@)->0,
                after.member("txInfoLegacy"@)->0,
            );
            &&& after.member("rxInfoLegacy"@) is Some && after.member("rxInfo"@) is None
            &&& after.member("txInfoLegacy"@) is Some && after.member("txInfo"@) is None
            &&& name != "gatewayID"@ && name != "gatewayId"@ && name != "loRaSNR"@ && name
                != "loraSnr"@ && name != "uplinkID"@ && name != "uplinkId"@ ==> rx_after.member(
                name,
            ) == rx_before.member(name)
            &&& moves(rx_before, "gatewayID"@, "gatewayId"@) ==> rx_after.member("gatewayId"@)
                == rx_before.member("gatewayID"@)
            &&& moves(rx_before, "loRaSNR"@, "loraSnr"@) ==> rx_after.member("loraSnr"@)
                == rx_before.member("loRaSNR"@)
            &&& moves(rx_before, "uplinkID"@, "uplinkId"@) ==> rx_after.member("uplinkId"@)
                == rx_before.member("uplinkID"@)
            &&& name != "loRaModulationInfo"@ && name != "loraModulationInfo"@ ==> tx_after.member(
                name,
            ) == tx_before.member(name)
            &&& name != "rxInfo"@ && name != "rxInfoLegacy"@ && name != "txInfo"@ && name
                != "txInfoLegacy"@ ==> after.member(name) == before.member(name)
        }),
{
    let (before, after) = (json(*old(v)), json(*final(v)));
    law_uplink(v);
    let (rx_before, tx_before) = (before.member("rxInfo"@)->0, before.member("txInfo"@)->0);
    let rx_after = after.member("rxInfoLegacy"@)->0;
    let tx_after = after.member("txInfoLegacy"@)->0;
    assert(kept(rx_before, rx_after, name) == (rx_after.member(name) == rx_before.member(name)));
    assert(kept(tx_before, tx_after, name) == (tx_after.member(name) == tx_before.member(name)));
    assert(kept(before, after, name) == (after.member(name) == before.member(name)));
}

/// Gateway statistics keep all that they hold.
pub proof fn law_stats(v: &mut Value)
    requires
        call_ensures(normalize_stats, (v,), ()),
    ensures
        current_stats(json(*old(v)), json(*final(v))),
{
    lemma_names();
}

/// An acknowledgement keeps all that it holds, and is for the downlink that its token stands for,
/// which the token then stands for no more.
pub proof fn law_ack(v: &mut Value, registry: &mut Registry)
    requires
        call_ensures(normalize_ack, (v, registry), ()),
    ensures
        current_ack(
            json(*old(v)),
            json(*final(v)),
            token_of(json(*old(v)), old(registry)@.tokens),
        ),
        final(registry)@.tokens == tokens_left(
            EventKind::Ack,
            json(*old(v)),
            old(registry)@.tokens,
        ),
        final(registry)@.json == old(registry)@.json,
        final(registry)@.v3_json == old(registry)@.v3_json,
{
    lemma_current_event(EventKind::Ack, json(*old(v)), old(registry)@);
    lemma_token_bits(json(*old(v)));
}

/// A message of a gateway gets its current names, and nothing but an acknowledgement touches the
/// tokens.
pub proof fn law_event(kind: EventKind, v: &mut Value, registry: &mut Registry)
    requires
        call_ensures(normalize_event, (kind, v, registry), ()),
    ensures
        current_event(kind, json(*old(v)), json(*final(v)), old(registry)@.tokens),
        final(registry)@.tokens == tokens_left(kind, json(*old(v)), old(registry)@.tokens),
        final(registry)@.json == old(registry)@.json,
        final(registry)@.v3_json == old(registry)@.v3_json,
{
    lemma_current_event(kind, json(*old(v)), old(registry)@);
    lemma_token_bits(json(*old(v)));
}

/// A payload of a gateway is written anew under its current names; one that is not JSON is refused,
/// and then nothing is touched.
pub proof fn law_event_payload(
    kind: EventKind,
    b: &[u8],
    registry: &mut Registry,
    r: Result<Vec<u8>, MqttError>,
)
    requires
        call_ensures(normalize_v3_json_payload, (kind, b, registry), r),
    ensures
        r is Ok <==> parsed(b@) is Some,
        final(registry)@.json == old(registry)@.json,
        final(registry)@.v3_json == old(registry)@.v3_json,
        match parsed(b@) {
            Some(event) => {
                &&& exists|document: Json|
                    r->Ok_0@ == #[trigger] written(document) && current_event(
                        kind,
                        event,
                        document,
                        old(registry)@.tokens,
                    )
                &&& final(registry)@.tokens == tokens_left(kind, event, old(registry)@.tokens)
            },
            None => r->Err_0 is Json && final(registry)@.tokens == old(registry)@.tokens,
        },
{
    if let Some(event) = parsed(b@) {
        lemma_current_event(kind, event, old(registry)@);
        lemma_token_bits(event);
        let document = event_document(kind, event, old(registry)@);
        assert(r->Ok_0@ == written(document));
    }
}

/// A downlink keeps all that a gateway of the third version needs, under the names of that version.
pub proof fn law_downlink(v: &mut Value)
    requires
        call_ensures(normalize_downlink, (v,), ()),
    ensures
        third_version_downlink(json(*old(v)), json(*final(v))),
{
    lemma_third_version_downlink(json(*old(v)));
}

/// A gateway configuration keeps all that it holds.
pub proof fn law_gateway_config(v: &mut Value)
    requires
        call_ensures(normalize_gateway_config, (v,), ()),
    ensures
        third_version_config(json(*old(v)), json(*final(v))),
{
    lemma_names();
}

/// The payload of a downlink is written anew under the names of the third version.
pub proof fn law_downlink_json_payload(b: &[u8], r: Result<Vec<u8>, MqttError>)
    requires
        call_ensures(normalize_v3_downlink_json_payload, (b,), r),
    ensures
        r is Ok <==> parsed(b@) is Some,
        match parsed(b@) {
            Some(downlink) => exists|document: Json|
                r->Ok_0@ == #[trigger] written(document) && third_version_downlink(
                    downlink,
                    document,
                ),
            None => r->Err_0 is Json,
        },
{
    if let Some(downlink) = parsed(b@) {
        lemma_third_version_downlink(downlink);
        assert(r->Ok_0@ == written(downlink_document(downlink)));
    }
}

/// The payload of a gateway configuration is written anew under the names of the third version.
pub proof fn law_config_json_payload(b: &[u8], r: Result<Vec<u8>, MqttError>)
    requires
        call_ensures(normalize_v3_gateway_config_json_payload, (b,), r),
    ensures
        r is Ok <==> parsed(b@) is Some,
        match parsed(b@) {
            Some(config) => exists|document: Json|
                r->Ok_0@ == #[trigger] written(document) && third_version_config(config, document),
            None => r->Err_0 is Json,
        },
{
    lemma_names();
    if let Some(config) = parsed(b@) {
        assert(r->Ok_0@ == written(gateway_config_document(config)));
    }
}

/// A downlink goes out as it was encoded, but for gateways of the third version, which get it under
/// the names that they know.
pub proof fn law_downlink_payload(
    encoding: Encoding,
    encoded: Vec<u8>,
    r: Result<Vec<u8>, MqttError>,
)
    requires
        call_ensures(downlink_payload, (encoding, encoded), r),
    ensures
        encoding is Protobuf || encoding is Json ==> r is Ok && r->Ok_0@ == encoded@,
        encoding is V3Json ==> (r is Ok <==> parsed(encoded@) is Some),
        r is Err ==> r->Err_0 is Json,
        encoding is V3Json && parsed(encoded@) is Some ==> exists|document: Json|
            r->Ok_0@ == #[trigger] written(document) && third_version_downlink(
                parsed(encoded@)->0,
                document,
            ),
{
    if let Some(downlink) = parsed(encoded@) {
        lemma_third_version_downlink(downlink);
        if encoding is V3Json {
            assert(r->Ok_0@ == written(downlink_document(downlink)));
        }
    }
}

/// A configuration goes out as it was encoded, but for gateways of the third version, which get it
/// under the names that they know.
pub proof fn law_configuration_payload(
    encoding: Encoding,
    encoded: Vec<u8>,
    r: Result<Vec<u8>, MqttError>,
)
    requires
        call_ensures(configuration_payload, (encoding, encoded), r),
    ensures
        encoding is Protobuf || encoding is Json ==> r is Ok && r->Ok_0@ == encoded@,
        encoding is V3Json ==> (r is Ok <==> parsed(encoded@) is Some),
        r is Err ==> r->Err_0 is Json,
        encoding is V3Json && parsed(encoded@) is Some ==> exists|document: Json|
            r->Ok_0@ == #[trigger] written(document) && third_version_config(
                parsed(encoded@)->0,
                document,
            ),
{
    lemma_names();
    if let Some(config) = parsed(encoded@) {
        if encoding is V3Json {
            assert(r->Ok_0@ == written(gateway_config_document(config)));
        }
    }
}

} // verus!
