//! JSON documents: the mathematical model of a document and the operations of
//! `serde_json` that the rest of the library uses.
use vstd::prelude::*;

use serde_json::Value;

verus! {

/// A JSON document as a mathematical value.
///
/// An object is a finite map from member names to documents: the order of its
/// members carries no meaning.
pub enum Json {
    Null,
    Bool(bool),
    /// A number that is a whole number from 0 to `u64::MAX`.
    Unsigned(u64),
    /// A number that is a whole number from `i64::MIN` to -1.
    Negative(i64),
    /// Any other number, by the text it is written with.
    Float(Seq<char>),
    Text(Seq<char>),
    Array(Seq<Json>),
    Object(Map<Seq<char>, Json>),
}

impl Json {
    /// The members of an object; no members for any other document.
    pub open spec fn members(self) -> Map<Seq<char>, Json> {
        match self {
            Json::Object(m) => m,
            _ => Map::empty(),
        }
    }

    /// The member called `name`, where the document is an object that has one.
    pub open spec fn member(self, name: Seq<char>) -> Option<Json> {
        if self.members().contains_key(name) {
            Some(self.members()[name])
        } else {
            None
        }
    }

    /// The document with `value` as its member `name`. Only an object can take a member.
    pub open spec fn with(self, name: Seq<char>, value: Json) -> Json {
        match self {
            Json::Object(m) => Json::Object(m.insert(name, value)),
            _ => self,
        }
    }

    /// The document without a member `name`.
    pub open spec fn without(self, name: Seq<char>) -> Json {
        match self {
            Json::Object(m) => Json::Object(m.remove(name)),
            _ => self,
        }
    }

    /// The first element, where the document is an array that has one.
    pub open spec fn first(self) -> Option<Json> {
        match self {
            Json::Array(s) => if s.len() > 0 { Some(s[0]) } else { None },
            _ => None,
        }
    }
}

/// `serde_json::Value`. What a value holds is named by `json`.
#[verifier::external_type_specification]
#[verifier::external_body]
pub struct ExValue(serde_json::Value);

/// `serde_json::Map`. What a map from names to values holds is named by `members`.
#[verifier::external_type_specification]
#[verifier::external_body]
#[verifier::reject_recursive_types(K)]
#[verifier::reject_recursive_types(V)]
pub struct ExMap<K, V>(serde_json::Map<K, V>);

/// `serde_json::Error`. It is carried along, and nothing is known of what is inside.
#[verifier::external_type_specification]
#[verifier::external_body]
pub struct ExError(serde_json::Error);

/// The document that a `serde_json::Value` holds.
pub uninterp spec fn json(v: serde_json::Value) -> Json;

/// The members that a `serde_json::Map` holds.
pub uninterp spec fn members(m: serde_json::Map<String, serde_json::Value>) -> Map<Seq<char>, Json>;

/// The document that `serde_json` reads from a text, where it reads one.
pub uninterp spec fn parsed(text: Seq<u8>) -> Option<Json>;

/// The compact text that `serde_json` writes for a document.
pub uninterp spec fn written(document: Json) -> Seq<u8>;

/// Reads a document, by `serde_json::from_slice`. What it reads, and whether it reads anything, is
/// a function of the text alone.
#[verifier::external_body]
pub(crate) fn parse(text: &[u8]) -> (r: Result<Value, serde_json::Error>)
    ensures
        match r {
            Ok(v) => parsed(text@) == Some(json(v)),
            Err(_) => parsed(text@) is None,
        },
{
    serde_json::from_slice(text)
}

/// Writes a document, by `serde_json::to_vec`: a `Value` has only texts as names of members, and
/// memory takes every byte, so that nothing can fail. What is written is a function of the document
/// alone.
#[verifier::external_body]
pub(crate) fn to_text(v: &Value) -> (r: Result<Vec<u8>, serde_json::Error>)
    ensures
        r is Ok,
        r->Ok_0@ == written(json(*v)),
{
    serde_json::to_vec(v)
}

/// The member `name`, by `Value::get`: only an object has members.
#[verifier::external_body]
pub(crate) fn member<'a>(v: &'a Value, name: &str) -> (r: Option<&'a Value>)
    ensures
        match r {
            Some(x) => json(*v).member(name@) == Some(json(*x)),
            None => json(*v).member(name@) is None,
        },
{
    v.get(name)
}

/// The member `name` for changing it in place, by `Value::get_mut`: only an object has members, and
/// what becomes of the member is all that becomes of the document.
#[verifier::external_body]
pub(crate) fn member_mut<'a>(v: &'a mut Value, name: &str) -> (r: Option<&'a mut Value>)
    ensures
        match r {
            Some(x) => {
                &&& json(*old(v)).member(name@) == Some(json(*x))
                &&& json(*final(v)) == json(*old(v)).with(name@, json(*final(x)))
            },
            None => json(*old(v)).member(name@) is None && *final(v) == *old(v),
        },
{
    v.get_mut(name)
}

/// `Value::as_object_mut` hands out the members of an object, and nothing of any other document.
pub assume_specification[ serde_json::Value::as_object_mut ](v: &mut Value) -> (r: Option<
    &mut serde_json::Map<String, Value>,
>)
    ensures
        match r {
            Some(m) => {
                &&& json(*old(v)) == Json::Object(members(*m))
                &&& json(*final(v)) == Json::Object(members(*final(m)))
            },
            None => !(json(*old(v)) is Object) && *final(v) == *old(v),
        },
;

/// `Value::as_array` hands out the elements of an array, and nothing of any other document.
pub assume_specification[ serde_json::Value::as_array ](v: &Value) -> (r: Option<&Vec<Value>>)
    ensures
        match r {
            Some(a) => json(*v) == Json::Array(a@.map_values(|x: Value| json(x))),
            None => !(json(*v) is Array),
        },
;

/// `Value::as_u64` is the number of a document that is a whole number from 0 to `u64::MAX`. A
/// number that was written with a fraction or an exponent is none.
pub assume_specification[ serde_json::Value::as_u64 ](v: &Value) -> (r: Option<u64>)
    ensures
        r == (match json(*v) {
            Json::Unsigned(n) => Some(n),
            _ => None,
        }),
;

/// The `Clone` impl of `Value` copies the document.
pub assume_specification[ <serde_json::Value as Clone>::clone ](v: &Value) -> (r: Value)
    ensures
        json(r) == json(*v),
;

/// `serde_json::Map::new` makes a map without members.
pub assume_specification[ serde_json::Map::<String, serde_json::Value>::new ]() -> (r:
    serde_json::Map<String, Value>)
    ensures
        members(r).dom() == Set::<Seq<char>>::empty(),
;

/// `serde_json::Map::insert` sets a member, and hands back what the member was before.
pub assume_specification[ serde_json::Map::<String, serde_json::Value>::insert ](
    m: &mut serde_json::Map<String, Value>,
    k: String,
    v: Value,
) -> (r: Option<Value>)
    ensures
        members(*final(m)) == members(*old(m)).insert(k@, json(v)),
        match r {
            Some(x) => members(*old(m)).contains_key(k@) && members(*old(m))[k@] == json(x),
            None => !members(*old(m)).contains_key(k@),
        },
;

/// Whether there is a member `name`, by `serde_json::Map::contains_key`.
#[verifier::external_body]
pub(crate) fn has_member(m: &serde_json::Map<String, Value>, name: &str) -> (r: bool)
    ensures
        r == members(*m).contains_key(name@),
{
    m.contains_key(name)
}

/// Takes the member `name` out, by `serde_json::Map::remove`, and hands it back.
#[verifier::external_body]
pub(crate) fn remove_member(m: &mut serde_json::Map<String, Value>, name: &str) -> (r: Option<Value>)
    ensures
        match r {
            Some(x) => {
                &&& members(*old(m)).contains_key(name@)
                &&& members(*old(m))[name@] == json(x)
                &&& members(*final(m)) == members(*old(m)).remove(name@)
            },
            None => {
                &&& !members(*old(m)).contains_key(name@)
                &&& members(*final(m)) == members(*old(m))
            },
        },
{
    m.remove(name)
}

/// The document that is a text, by the variant `Value::String`.
#[verifier::external_body]
pub(crate) fn text(s: &str) -> (r: Value)
    ensures
        json(r) == Json::Text(s@),
{
    Value::String(s.to_string())
}

/// The document that is a number, by the variant `Value::Number` and the `From<u32>` impl of
/// `serde_json::Number`.
#[verifier::external_body]
pub(crate) fn number(n: u32) -> (r: Value)
    ensures
        json(r) == Json::Unsigned(n as u64),
{
    Value::Number(n.into())
}

/// The document that is an array, by the variant `Value::Array`.
#[verifier::external_body]
pub(crate) fn array(elements: Vec<Value>) -> (r: Value)
    ensures
        json(r) == Json::Array(elements@.map_values(|x: Value| json(x))),
{
    Value::Array(elements)
}

/// The document that is an object, by the variant `Value::Object`.
#[verifier::external_body]
pub(crate) fn object(m: serde_json::Map<String, Value>) -> (r: Value)
    ensures
        json(r) == Json::Object(members(m)),
{
    Value::Object(m)
}

/// Gives an object the member `name`. Any other document stays as it is.
pub fn set_member(v: &mut Value, name: &str, value: Value)
    ensures
        json(*final(v)) == json(*old(v)).with(name@, json(value)),
{
    if let Some(obj) = v.as_object_mut() {
        obj.insert(name.to_string(), value);
    }
}

/// Takes the member `name` out of an object. Any other document stays as it is.
pub fn unset_member(v: &mut Value, name: &str)
    ensures
        json(*final(v)) == json(*old(v)).without(name@),
{
    if let Some(obj) = v.as_object_mut() {
        let _ = remove_member(obj, name);
        assert(members(*obj) =~= json(*old(v)).members().remove(name@));
    }
}

/// The document with its member `old_name` called `new_name` instead. Nothing changes where
/// there is no member `old_name`, or where a member `new_name` is there already.
pub open spec fn renamed(document: Json, old_name: Seq<char>, new_name: Seq<char>) -> Json {
    if document.member(old_name) is Some && document.member(new_name) is None {
        document.without(old_name).with(new_name, document.member(old_name)->0)
    } else {
        document
    }
}

/// Calls the member `old_name` of an object `new_name` instead, unless there is a member of that
/// name already.
pub fn rename_field(v: &mut Value, old_name: &str, new_name: &str)
    ensures
        json(*final(v)) == renamed(json(*old(v)), old_name@, new_name@),
{
    if let Some(obj) = v.as_object_mut() {
        if !has_member(obj, new_name) {
            if let Some(value) = remove_member(obj, old_name) {
                obj.insert(new_name.to_string(), value);
            }
        }
    }
}

/// A member that gets another name keeps its value, and no other member is touched.
pub proof fn law_rename_keeps_members(
    document: Json,
    old_name: Seq<char>,
    new_name: Seq<char>,
    other: Seq<char>,
)
    requires
        other != old_name,
        other != new_name,
    ensures
        renamed(document, old_name, new_name).member(other) == document.member(other),
        document.member(old_name) is Some && document.member(new_name) is None ==> {
            &&& renamed(document, old_name, new_name).member(new_name) == document.member(old_name)
            &&& renamed(document, old_name, new_name).member(old_name) is None
        },
{
}

/// A member that gets another name and then its old name back leaves the document as it was.
pub proof fn law_rename_back(document: Json, old_name: Seq<char>, new_name: Seq<char>)
    requires
        document.member(old_name) is Some,
        document.member(new_name) is None,
    ensures
        renamed(renamed(document, old_name, new_name), new_name, old_name) == document,
{
    let back = renamed(renamed(document, old_name, new_name), new_name, old_name);
    assert(back.members() =~= document.members());
}

/// To rename a member twice is to rename it once.
pub proof fn law_rename_twice(document: Json, old_name: Seq<char>, new_name: Seq<char>)
    requires
        old_name != new_name,
    ensures
        renamed(renamed(document, old_name, new_name), old_name, new_name) == renamed(
            document,
            old_name,
            new_name,
        ),
{
}

} // verus!
