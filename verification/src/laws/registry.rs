//! What is remembered of gateways and tokens: each call changes what it is about, and nothing else.
use vstd::prelude::*;

use crate::gateway::backend::mqtt::{accept, begin_downlink, Encoding, EventKind, Incoming};
use crate::gateway::backend::registry::{
    gateway_is_json, gateway_is_v3_json, get_v3_downlink_id_by_token, register_v3_downlink_token,
    set_gateway_json, set_gateway_v3_json, Registry,
};
use crate::time::Timestamp;

verus! {

/// A memory that nothing was put in knows nothing.
pub proof fn law_new_registry(
    registry: Registry,
    id: &str,
    json: bool,
    v3_json: bool,
    same: &mut Registry,
    token: u32,
    downlink_id: Option<u32>,
)
    requires
        call_ensures(Registry::new, (), registry),
        call_ensures(gateway_is_json, (&registry, id), json),
        call_ensures(gateway_is_v3_json, (&registry, id), v3_json),
        old(same)@ == registry@,
        call_ensures(get_v3_downlink_id_by_token, (same, token), downlink_id),
    ensures
        !json,
        !v3_json,
        downlink_id is None,
{
}

/// Whether a gateway is taken for JSON is what was last set for it. Other gateways, the other flag
/// and the tokens are not touched.
pub proof fn law_set_gateway_json(
    registry: &mut Registry,
    id: &str,
    flag: bool,
    before: &Registry,
    after: &Registry,
    other: &str,
    was: bool,
    is: bool,
)
    requires
        call_ensures(set_gateway_json, (registry, id, flag), ()),
        before@ == old(registry)@,
        after@ == final(registry)@,
        call_ensures(gateway_is_json, (before, other), was),
        call_ensures(gateway_is_json, (after, other), is),
    ensures
        other@ == id@ ==> is == flag,
        other@ != id@ ==> is == was,
        final(registry)@.v3_json == old(registry)@.v3_json,
        final(registry)@.tokens == old(registry)@.tokens,
{
}

/// Whether a gateway is taken for one of the third version is what was last set for it. Other
/// gateways, the other flag and the tokens are not touched.
pub proof fn law_set_gateway_v3_json(
    registry: &mut Registry,
    id: &str,
    flag: bool,
    before: &Registry,
    after: &Registry,
    other: &str,
    was: bool,
    is: bool,
)
    requires
        call_ensures(set_gateway_v3_json, (registry, id, flag), ()),
        before@ == old(registry)@,
        after@ == final(registry)@,
        call_ensures(gateway_is_v3_json, (before, other), was),
        call_ensures(gateway_is_v3_json, (after, other), is),
    ensures
        other@ == id@ ==> is == flag,
        other@ != id@ ==> is == was,
        final(registry)@.json == old(registry)@.json,
        final(registry)@.tokens == old(registry)@.tokens,
{
}

/// A token that is looked up stands for the downlink that was registered with the same low 16 bits,
/// and for what it stood for before where those bits differ.
pub proof fn law_registered_token(
    registry: &mut Registry,
    token: u32,
    downlink_id: u32,
    after: &mut Registry,
    before: &mut Registry,
    other: u32,
    is: Option<u32>,
    was: Option<u32>,
)
    requires
        call_ensures(register_v3_downlink_token, (registry, token, downlink_id), ()),
        old(after)@ == final(registry)@,
        old(before)@ == old(registry)@,
        call_ensures(get_v3_downlink_id_by_token, (after, other), is),
        call_ensures(get_v3_downlink_id_by_token, (before, other), was),
    ensures
        other % 0x1_0000 == token % 0x1_0000 ==> is == Some(downlink_id),
        other % 0x1_0000 != token % 0x1_0000 ==> is == was,
        final(registry)@.json == old(registry)@.json,
        final(registry)@.v3_json == old(registry)@.v3_json,
{
}

/// A token that was looked up stands for nothing any more; the tokens with other low 16 bits stand
/// for what they stood for.
pub proof fn law_used_token(
    registry: &mut Registry,
    token: u32,
    found: Option<u32>,
    after: &mut Registry,
    before: &mut Registry,
    other: u32,
    is: Option<u32>,
    was: Option<u32>,
)
    requires
        call_ensures(get_v3_downlink_id_by_token, (registry, token), found),
        old(after)@ == final(registry)@,
        old(before)@ == old(registry)@,
        call_ensures(get_v3_downlink_id_by_token, (after, other), is),
        call_ensures(get_v3_downlink_id_by_token, (before, other), was),
    ensures
        other % 0x1_0000 == token % 0x1_0000 ==> is is None && was == found,
        other % 0x1_0000 != token % 0x1_0000 ==> is == was,
        final(registry)@.json == old(registry)@.json,
        final(registry)@.v3_json == old(registry)@.v3_json,
{
}

/// A downlink for a gateway of the third version is found again by its own number, which is its
/// token; a downlink for any other gateway leaves the memory as it was.
pub proof fn law_begun_downlink(
    registry: &mut Registry,
    encoding: Encoding,
    downlink_id: u32,
    after: &mut Registry,
    before: &mut Registry,
    token: u32,
    is: Option<u32>,
    was: Option<u32>,
)
    requires
        call_ensures(begin_downlink, (registry, encoding, downlink_id), ()),
        old(after)@ == final(registry)@,
        old(before)@ == old(registry)@,
        call_ensures(get_v3_downlink_id_by_token, (after, token), is),
        call_ensures(get_v3_downlink_id_by_token, (before, token), was),
    ensures
        encoding is V3Json && token % 0x1_0000 == downlink_id % 0x1_0000 ==> is == Some(
            downlink_id,
        ),
        !(encoding is V3Json) || token % 0x1_0000 != downlink_id % 0x1_0000 ==> is == was,
        !(encoding is V3Json) ==> final(registry)@ == old(registry)@,
        final(registry)@.json == old(registry)@.json,
        final(registry)@.v3_json == old(registry)@.v3_json,
{
}

/// Both flags of the gateway of an accepted message are what the message was; those of the other
/// gateways, and the tokens, are not touched. A message of a mesh, or one without a gateway, changes
/// nothing. An uplink with a gateway, and nothing else, is stamped.
pub proof fn law_accepted_message(
    registry: &mut Registry,
    incoming: &Incoming,
    gateway_id: Option<&str>,
    stamp: Option<Timestamp>,
    before: &Registry,
    after: &Registry,
    other: &str,
    was_json: bool,
    is_json: bool,
    was_v3: bool,
    is_v3: bool,
)
    requires
        call_ensures(accept, (registry, incoming, gateway_id), stamp),
        before@ == old(registry)@,
        after@ == final(registry)@,
        call_ensures(gateway_is_json, (before, other), was_json),
        call_ensures(gateway_is_json, (after, other), is_json),
        call_ensures(gateway_is_v3_json, (before, other), was_v3),
        call_ensures(gateway_is_v3_json, (after, other), is_v3),
    ensures
        gateway_id is Some && other@ == gateway_id->0@ && !(incoming.kind is Mesh) ==> is_json
            == incoming.json && is_v3 == incoming.v3_json,
        gateway_id is None || other@ != gateway_id->0@ || incoming.kind is Mesh ==> is_json
            == was_json && is_v3 == was_v3,
        final(registry)@.tokens == old(registry)@.tokens,
        stamp is Some <==> incoming.kind == EventKind::Up && gateway_id is Some,
        stamp matches Some(time) ==> time.seconds >= 0 && time.nanos < 1_000_000_000,
{
}

} // verus!
