//! JSON documents.
//!
//! A document is a `serde_json::Value`. Verus sees nothing inside such a
//! value, so contracts speak of it through its model, a [`Doc`], and every
//! operation on it is a call into `serde_json` whose contract is taken on
//! trust.

use vstd::prelude::*;

verus! {

/// The mathematical model of a JSON document.
#[verifier::ext_equal]
pub enum Doc {
    Null,
    Bool(bool),
    /// A number that is held as an integer.
    Integer(int),
    /// A number that is held as a double, by its bit pattern.
    Double(u64),
    Str(Seq<char>),
    Array(Seq<Doc>),
    Object(Map<Seq<char>, Doc>),
}

impl Doc {
    /// The member `key` of an object; `Null` where `self` is no object or
    /// has no such member.
    pub open spec fn member(self, key: Seq<char>) -> Doc {
        match self {
            Doc::Object(members) => if members.contains_key(key) {
                members[key]
            } else {
                Doc::Null
            },
            _ => Doc::Null,
        }
    }

    /// The members of an object; none where `self` is no object.
    pub open spec fn members(self) -> Map<Seq<char>, Doc> {
        match self {
            Doc::Object(members) => members,
            _ => Map::empty(),
        }
    }

    /// The string that `self` is, if it is one.
    pub open spec fn as_str(self) -> Option<Seq<char>> {
        match self {
            Doc::Str(s) => Some(s),
            _ => None,
        }
    }

    /// The boolean that `self` is, if it is one.
    pub open spec fn as_bool(self) -> Option<bool> {
        match self {
            Doc::Bool(b) => Some(b),
            _ => None,
        }
    }

    /// The object without members.
    pub open spec fn empty_object() -> Doc {
        Doc::Object(Map::empty())
    }

    /// `self`, an object or `Null`, with the member `key` set to `value`.
    pub open spec fn with(self, key: Seq<char>, value: Doc) -> Doc {
        Doc::Object(self.members().insert(key, value))
    }
}

/// The compact JSON text of a document, as characters.
pub open spec fn json_string(d: Doc) -> Seq<char> {
    vstd::utf8::decode_utf8(json_text(d))
}

/// The models of a sequence of documents.
pub open spec fn docs_of(items: Seq<serde_json::Value>) -> Seq<Doc> {
    items.map_values(|v: serde_json::Value| doc_of(v))
}

/// `serde_json::Value`, a JSON document. It is carried as it is; what it
/// holds is [`doc_of`] it.
#[verifier::external_type_specification]
#[verifier::external_body]
pub struct ExValue(serde_json::Value);

/// `serde_json::Error`, with which a text that is no JSON is rejected. It is
/// carried as it is.
#[verifier::external_type_specification]
#[verifier::external_body]
pub struct ExJsonError(serde_json::Error);

/// What a `serde_json::Value` holds: variant for variant, a number by the
/// integer or the double it stores, an object by its keys.
pub uninterp spec fn doc_of(v: serde_json::Value) -> Doc;

/// The compact JSON text that `serde_json` writes for a document.
pub uninterp spec fn json_text(d: Doc) -> Seq<u8>;

/// The document that `serde_json` reads from a text; `None` where it
/// rejects the text.
pub uninterp spec fn json_parse(text: Seq<u8>) -> Option<Doc>;

/// `Clone` for `Value` is derived: the copy holds what the value holds.
pub assume_specification[ <serde_json::Value as Clone>::clone ](v: &serde_json::Value) -> (r:
    serde_json::Value)
    ensures
        r == *v,
;

/// `Value::Object` of `Map::new()`: the object without members.
#[verifier::external_body]
pub(crate) fn empty_object() -> (r: serde_json::Value)
    ensures
        doc_of(r) == Doc::empty_object(),
{
    serde_json::Value::Object(serde_json::Map::new())
}

/// `Value::String`: the JSON string with the characters of `s`.
#[verifier::external_body]
pub(crate) fn string_value(s: String) -> (r: serde_json::Value)
    ensures
        doc_of(r) == Doc::Str(s@),
{
    serde_json::Value::String(s)
}

/// `Value::Bool`.
#[verifier::external_body]
pub(crate) fn bool_value(b: bool) -> (r: serde_json::Value)
    ensures
        doc_of(r) == Doc::Bool(b),
{
    serde_json::Value::Bool(b)
}

/// `Value::from` for `u32`: the number, stored as an integer.
#[verifier::external_body]
pub(crate) fn number_value(n: u32) -> (r: serde_json::Value)
    ensures
        doc_of(r) == Doc::Integer(n as int),
{
    serde_json::Value::from(n)
}

/// `Value::Array`: the array of the items, in their order.
#[verifier::external_body]
pub(crate) fn array_value(items: Vec<serde_json::Value>) -> (r: serde_json::Value)
    ensures
        doc_of(r) == Doc::Array(docs_of(items@)),
{
    serde_json::Value::Array(items)
}

/// `IndexMut<&str>` for `Value`, assigned to: on an object the member `key`
/// is added or replaced, and `Null` is first made the empty object. On any
/// other value the call panics, so those are left out.
#[verifier::external_body]
pub(crate) fn set_member(doc: &mut serde_json::Value, key: &str, value: serde_json::Value)
    requires
        doc_of(*old(doc)) is Object || doc_of(*old(doc)) is Null,
    ensures
        doc_of(*final(doc)) == doc_of(*old(doc)).with(key@, doc_of(value)),
{
    doc[key] = value;
}

/// `Index<&str>` for `Value`: the member `key` of an object, and `Null`
/// where there is none or the value is no object.
#[verifier::external_body]
pub(crate) fn member<'a>(doc: &'a serde_json::Value, key: &str) -> (r: &'a serde_json::Value)
    ensures
        doc_of(*r) == doc_of(*doc).member(key@),
{
    &doc[key]
}

/// `Value::as_str`: the characters of a JSON string, `None` for any other
/// value.
#[verifier::external_body]
pub(crate) fn as_str<'a>(v: &'a serde_json::Value) -> (r: Option<&'a str>)
    ensures
        match r {
            Some(s) => doc_of(*v).as_str() == Some(s@),
            None => doc_of(*v).as_str() is None,
        },
{
    v.as_str()
}

/// `Value::as_bool`: the boolean, `None` for any other value.
#[verifier::external_body]
pub(crate) fn as_bool(v: &serde_json::Value) -> (r: Option<bool>)
    ensures
        r == doc_of(*v).as_bool(),
{
    v.as_bool()
}

/// `Display` for `Value`, through `to_string`: the compact JSON text, as a
/// string.
#[verifier::external_body]
fn to_text(v: &serde_json::Value) -> (r: String)
    ensures
        vstd::utf8::encode_utf8(r@) == json_text(doc_of(*v)),
{
    v.to_string()
}

/// `serde_json::to_vec` on a `Value`: the compact JSON text. The call fails
/// only on a map with keys that are no strings or where writing fails; a
/// `Value` has string keys and the text goes to a `Vec`, so it returns `Ok`.
#[verifier::external_body]
pub(crate) fn to_vec(v: &serde_json::Value) -> (r: Result<Vec<u8>, serde_json::Error>)
    ensures
        r is Ok,
        r matches Ok(text) ==> text@ == json_text(doc_of(*v)),
{
    serde_json::to_vec(v)
}

/// `serde_json::from_slice` to a `Value`: the document that the text
/// states, or the error with which the text is rejected.
#[verifier::external_body]
pub(crate) fn from_slice(text: &[u8]) -> (r: Result<serde_json::Value, serde_json::Error>)
    ensures
        match r {
            Ok(v) => json_parse(text@) == Some(doc_of(v)),
            Err(_) => json_parse(text@) is None,
        },
{
    serde_json::from_slice(text)
}

/// The compact JSON text of a document, as a string.
pub fn text_of(v: &serde_json::Value) -> (r: String)
    ensures
        r@ == json_string(doc_of(*v)),
{
    let text = to_text(v);
    proof {
        vstd::utf8::encode_utf8_decode_utf8(text@);
    }
    text
}

/// `Display` for `serde_json::Error`, through `to_string`.
#[verifier::external_body]
pub(crate) fn error_text(e: &serde_json::Error) -> (r: String) {
    e.to_string()
}

} // verus!
