//! What the backend remembers of the gateways between two messages: how each gateway encodes
//! its messages, and which downlink each outstanding token stands for.
use std::collections::HashMap;

use vstd::hash_map::StringHashMap;
use vstd::prelude::*;
use vstd::set_lib::{lemma_int_range, set_int_range};

verus! {

broadcast use vstd::std_specs::hash::group_hash_axioms;

/// The memory of the backend.
pub struct Registry {
    json: StringHashMap<bool>,
    v3_json: StringHashMap<bool>,
    tokens: HashMap<u32, u32>,
}

/// The memory of the backend as a mathematical value.
#[verifier::ext_equal]
pub struct RegistryView {
    /// Whether the last message of a gateway was JSON, for the gateways that sent one.
    pub json: Map<Seq<char>, bool>,
    /// Whether the last message of a gateway was JSON of the third version, for the gateways
    /// that sent one.
    pub v3_json: Map<Seq<char>, bool>,
    /// The downlink that each outstanding token stands for, by the low 16 bits of the token.
    pub tokens: Map<u32, u32>,
}

impl View for Registry {
    type V = RegistryView;

    closed spec fn view(&self) -> RegistryView {
        RegistryView { json: self.json@, v3_json: self.v3_json@, tokens: self.tokens@ }
    }
}

/// The low 16 bits of a token: all that a gateway of the third version keeps of it.
pub open spec fn token_slot(token: u32) -> u32 {
    token % 0x1_0000
}

/// What a gateway that is not in `flags` is taken for.
pub open spec fn flag_of(flags: Map<Seq<char>, bool>, gateway_id: Seq<char>) -> bool {
    flags.contains_key(gateway_id) && flags[gateway_id]
}

impl RegistryView {
    /// Tokens are kept by their low 16 bits.
    pub open spec fn wf(self) -> bool {
        forall|slot: u32| #[trigger] self.tokens.contains_key(slot) ==> slot < 0x1_0000
    }

    /// The memory once `token` stands for `downlink_id`.
    pub open spec fn with_token(self, token: u32, downlink_id: u32) -> RegistryView {
        RegistryView { tokens: self.tokens.insert(token_slot(token), downlink_id), ..self }
    }

    /// The memory once `token` stands for nothing.
    pub open spec fn without_token(self, token: u32) -> RegistryView {
        RegistryView { tokens: self.tokens.remove(token_slot(token)), ..self }
    }

    /// The downlink that `token` stands for.
    pub open spec fn downlink_id(self, token: u32) -> Option<u32> {
        if self.tokens.contains_key(token_slot(token)) {
            Some(self.tokens[token_slot(token)])
        } else {
            None
        }
    }
}

impl Registry {
    /// The memory of a backend that nothing has happened to.
    pub fn new() -> (r: Registry)
        ensures
            r@ == (RegistryView { json: Map::empty(), v3_json: Map::empty(), tokens: Map::empty() }),
            r@.wf(),
    {
        let r = Registry {
            json: StringHashMap::new(),
            v3_json: StringHashMap::new(),
            tokens: HashMap::new(),
        };
        assert(r@ =~= (RegistryView { json: Map::empty(), v3_json: Map::empty(), tokens: Map::empty() }));
        r
    }
}

/// Whether the last message of the gateway was JSON.
pub fn gateway_is_json(registry: &Registry, gateway_id: &str) -> (r: bool)
    ensures
        r == flag_of(registry@.json, gateway_id@),
{
    match registry.json.get(gateway_id) {
        Some(is_json) => *is_json,
        None => false,
    }
}

/// Whether the last message of the gateway was JSON of the third version.
pub fn gateway_is_v3_json(registry: &Registry, gateway_id: &str) -> (r: bool)
    ensures
        r == flag_of(registry@.v3_json, gateway_id@),
{
    match registry.v3_json.get(gateway_id) {
        Some(is_v3_json) => *is_v3_json,
        None => false,
    }
}

/// Remembers whether the last message of the gateway was JSON.
pub fn set_gateway_json(registry: &mut Registry, gateway_id: &str, is_json: bool)
    ensures
        final(registry)@ == (RegistryView {
            json: old(registry)@.json.insert(gateway_id@, is_json),
            ..old(registry)@
        }),
{
    registry.json.insert(gateway_id.to_string(), is_json);
}

/// Remembers whether the last message of the gateway was JSON of the third version.
pub fn set_gateway_v3_json(registry: &mut Registry, gateway_id: &str, is_v3_json: bool)
    ensures
        final(registry)@ == (RegistryView {
            v3_json: old(registry)@.v3_json.insert(gateway_id@, is_v3_json),
            ..old(registry)@
        }),
{
    registry.v3_json.insert(gateway_id.to_string(), is_v3_json);
}

/// Remembers that `token` stands for `downlink_id`. A token with the same low 16 bits is
/// forgotten.
pub fn register_v3_downlink_token(registry: &mut Registry, token: u32, downlink_id: u32)
    ensures
        final(registry)@ == old(registry)@.with_token(token, downlink_id),
        old(registry)@.wf() ==> final(registry)@.wf(),
{
    assert(token & 0xffff == token % 0x1_0000 && token % 0x1_0000 < 0x1_0000) by (bit_vector);
    registry.tokens.insert(token & 0xffff, downlink_id);
    assert(registry@ =~= old(registry)@.with_token(token, downlink_id));
}

/// The downlink that `token` stands for, which is forgotten with that.
pub fn get_v3_downlink_id_by_token(registry: &mut Registry, token: u32) -> (r: Option<u32>)
    ensures
        r == old(registry)@.downlink_id(token),
        final(registry)@ == old(registry)@.without_token(token),
        old(registry)@.wf() ==> final(registry)@.wf(),
{
    assert(token & 0xffff == token % 0x1_0000) by (bit_vector);
    registry.tokens.remove(&(token & 0xffff))
}

/// What was last remembered of a gateway is what is known of it. Nothing that is remembered of one
/// gateway changes what is known of another.
pub proof fn law_flag_is_last_set(
    flags: Map<Seq<char>, bool>,
    gateway_id: Seq<char>,
    flag: bool,
    other: Seq<char>,
)
    ensures
        flag_of(flags.insert(gateway_id, flag), gateway_id) == flag,
        other != gateway_id ==> flag_of(flags.insert(gateway_id, flag), other) == flag_of(
            flags,
            other,
        ),
{
}

/// A token stands for the downlink that was last registered under its low 16 bits, until it is
/// used: after that it stands for nothing. The other tokens are not touched by either.
pub proof fn law_token_is_used_once(
    registry: RegistryView,
    token: u32,
    downlink_id: u32,
    other: u32,
)
    ensures
        token_slot(other) == token_slot(token) ==> {
            &&& registry.with_token(token, downlink_id).downlink_id(other) == Some(downlink_id)
            &&& registry.without_token(token).downlink_id(other) is None
        },
        token_slot(other) != token_slot(token) ==> {
            &&& registry.with_token(token, downlink_id).downlink_id(other) == registry.downlink_id(
                other,
            )
            &&& registry.without_token(token).downlink_id(other) == registry.downlink_id(other)
        },
{
}

/// The memory for tokens is bounded: no more than 65536 of them are outstanding.
pub proof fn law_tokens_are_bounded(registry: RegistryView)
    requires
        registry.wf(),
    ensures
        registry.tokens.dom().finite(),
        registry.tokens.dom().len() <= 0x1_0000,
{
    let slots = set_int_range(0, 0x1_0000);
    lemma_int_range(0, 0x1_0000);
    let image = registry.tokens.dom().map(|slot: u32| slot as int);
    assert(image.subset_of(slots));
    vstd::set_lib::lemma_len_subset(image, slots);
    let back = image.map(|slot: int| slot as u32);
    assert forall|slot: u32| registry.tokens.dom().contains(slot) implies back.contains(slot) by {
        assert(image.contains(slot as int));
        assert((slot as int) as u32 == slot);
    }
    assert(back =~= registry.tokens.dom());
    vstd::set_lib::lemma_map_size_bound(image, back, |slot: int| slot as u32);
}

} // verus!
