//! Structured documents.
//!
//! A page's embedded state is JSON text. It is parsed by `serde_json`; this
//! module holds the parsed document as a value of the library's own, with the
//! accessors that resolution reads it through.

use serde_json::Value;
use vstd::prelude::*;

verus! {

/// A JSON number, as far as resolution tells numbers apart.
#[derive(Debug, Clone, Copy, PartialEq, Eq)]
pub enum JsonNumber {
    /// An integer that is not negative.
    Unsigned(u64),
    /// An integer below zero.
    Negative(i64),
    /// A number that is no integer of 64 bits.
    Float,
}

/// A parsed document.
#[derive(Debug, PartialEq, Eq)]
pub enum Json {
    Null,
    Bool(bool),
    Number(JsonNumber),
    Str(String),
    Array(Vec<Json>),
    /// An object's members, in the order in which the parser's map yields
    /// them.
    Object(Vec<(String, Json)>),
}

/// The mathematical value of a document.
pub ghost enum JsonView {
    Null,
    Bool(bool),
    Number(JsonNumber),
    Str(Seq<char>),
    Array(Seq<JsonView>),
    Object(Seq<(Seq<char>, JsonView)>),
}

/// The value that `j` stands for.
pub open spec fn json_view(j: Json) -> JsonView
    decreases j,
{
    match j {
        Json::Null => JsonView::Null,
        Json::Bool(b) => JsonView::Bool(b),
        Json::Number(n) => JsonView::Number(n),
        Json::Str(s) => JsonView::Str(s@),
        Json::Array(items) => JsonView::Array(
            Seq::new(
                items.len() as nat,
                |i: int|
                    if 0 <= i < items.len() {
                        json_view(items[i])
                    } else {
                        JsonView::Null
                    },
            ),
        ),
        Json::Object(members) => JsonView::Object(
            Seq::new(
                members.len() as nat,
                |i: int|
                    if 0 <= i < members.len() {
                        (members[i].0@, json_view(members[i].1))
                    } else {
                        (Seq::empty(), JsonView::Null)
                    },
            ),
        ),
    }
}

impl View for Json {
    type V = JsonView;

    open spec fn view(&self) -> JsonView {
        json_view(*self)
    }
}

impl DeepView for Json {
    type V = JsonView;

    open spec fn deep_view(&self) -> JsonView {
        json_view(*self)
    }
}

/// The value of the first member named `key`.
pub open spec fn lookup(members: Seq<(Seq<char>, JsonView)>, key: Seq<char>) -> Option<JsonView>
    decreases members.len(),
{
    if members.len() == 0 {
        None
    } else if members[0].0 == key {
        Some(members[0].1)
    } else {
        lookup(members.drop_first(), key)
    }
}

impl JsonNumber {
    /// The number as an unsigned integer of 64 bits, where it is one.
    pub open spec fn spec_as_u64(self) -> Option<u64> {
        match self {
            JsonNumber::Unsigned(u) => Some(u),
            _ => None,
        }
    }

    /// The number as a signed integer of 64 bits, where it is one.
    pub open spec fn spec_as_i64(self) -> Option<i64> {
        match self {
            JsonNumber::Unsigned(u) => if u <= i64::MAX {
                Some(u as i64)
            } else {
                None
            },
            JsonNumber::Negative(i) => Some(i),
            JsonNumber::Float => None,
        }
    }

    /// The number as an unsigned integer of 64 bits, where it is one.
    pub fn as_u64(&self) -> (r: Option<u64>)
        ensures
            r == self.spec_as_u64(),
    {
        match self {
            JsonNumber::Unsigned(u) => Some(*u),
            _ => None,
        }
    }

    /// The number as a signed integer of 64 bits, where it is one.
    pub fn as_i64(&self) -> (r: Option<i64>)
        ensures
            r == self.spec_as_i64(),
    {
        match self {
            JsonNumber::Unsigned(u) => if *u <= 0x7fff_ffff_ffff_ffff {
                Some(*u as i64)
            } else {
                None
            },
            JsonNumber::Negative(i) => Some(*i),
            JsonNumber::Float => None,
        }
    }
}

impl JsonView {
    /// The member named `key`, where this is an object that has one.
    pub open spec fn get(self, key: Seq<char>) -> Option<JsonView> {
        match self {
            JsonView::Object(members) => lookup(members, key),
            _ => None,
        }
    }

    /// The member named `key`, or `Null` where there is none: what reading
    /// an optional part of a document starts from.
    pub open spec fn get_or_null(self, key: Seq<char>) -> JsonView {
        match self.get(key) {
            Some(j) => j,
            None => JsonView::Null,
        }
    }

    /// The value of the only member, where this is an object with exactly
    /// one.
    pub open spec fn sole_member(self) -> Option<JsonView> {
        match self {
            JsonView::Object(members) => if members.len() == 1 {
                Some(members[0].1)
            } else {
                None
            },
            _ => None,
        }
    }

    /// The text, where this is a string.
    pub open spec fn as_str(self) -> Option<Seq<char>> {
        match self {
            JsonView::Str(s) => Some(s),
            _ => None,
        }
    }

    /// The number as an unsigned integer of 64 bits, where this is one.
    pub open spec fn as_u64(self) -> Option<u64> {
        match self {
            JsonView::Number(n) => n.spec_as_u64(),
            _ => None,
        }
    }

    /// The number as a signed integer of 64 bits, where this is one.
    pub open spec fn as_i64(self) -> Option<i64> {
        match self {
            JsonView::Number(n) => n.spec_as_i64(),
            _ => None,
        }
    }

    /// The text of the member named `key`, where there is such a member and
    /// it is a string.
    pub open spec fn text(self, key: Seq<char>) -> Option<Seq<char>> {
        match self.get(key) {
            Some(j) => j.as_str(),
            None => None,
        }
    }

    /// The count in the member named `key`, where there is such a member and
    /// it is an unsigned integer.
    pub open spec fn count(self, key: Seq<char>) -> Option<u64> {
        match self.get(key) {
            Some(j) => j.as_u64(),
            None => None,
        }
    }
}

impl Json {
    /// The member named `key`, where this is an object that has one.
    pub fn get(&self, key: &str) -> (r: Option<&Json>)
        ensures
            r.deep_view() == self@.get(key@),
    {
        match self {
            Json::Object(members) => {
                let wanted = key.to_owned();
                let ghost all = self@->Object_0;
                assert(all.skip(0) =~= all);
                let mut i: usize = 0;
                while i < members.len()
                    invariant
                        i <= members.len(),
                        wanted@ == key@,
                        self@ == JsonView::Object(all),
                        all.len() == members.len(),
                        forall|j: int|
                            0 <= j < members.len() ==> (#[trigger] all[j]) == (
                                members[j].0@,
                                members[j].1@,
                            ),
                        lookup(all, key@) == lookup(all.skip(i as int), key@),
                    decreases members.len() - i,
                {
                    if members[i].0 == wanted {
                        assert(all.skip(i as int)[0] == all[i as int]);
                        return Some(&members[i].1);
                    }
                    assert(all.skip(i as int).drop_first() =~= all.skip(i + 1));
                    i += 1;
                }
                None
            },
            _ => None,
        }
    }

    /// The value of the only member, where this is an object with exactly
    /// one.
    pub fn sole_member(&self) -> (r: Option<&Json>)
        ensures
            r.deep_view() == self@.sole_member(),
    {
        match self {
            Json::Object(members) => if members.len() == 1 {
                Some(&members[0].1)
            } else {
                None
            },
            _ => None,
        }
    }

    /// The text, where this is a string.
    pub fn as_str(&self) -> (r: Option<&str>)
        ensures
            r.deep_view() == self@.as_str(),
    {
        match self {
            Json::Str(s) => Some(s.as_str()),
            _ => None,
        }
    }

    /// The number as an unsigned integer of 64 bits, where this is one.
    pub fn as_u64(&self) -> (r: Option<u64>)
        ensures
            r == self@.as_u64(),
    {
        match self {
            Json::Number(n) => n.as_u64(),
            _ => None,
        }
    }

    /// The number as a signed integer of 64 bits, where this is one.
    pub fn as_i64(&self) -> (r: Option<i64>)
        ensures
            r == self@.as_i64(),
    {
        match self {
            Json::Number(n) => n.as_i64(),
            _ => None,
        }
    }

    /// The text of the member named `key`, where there is such a member and
    /// it is a string.
    pub fn text(&self, key: &str) -> (r: Option<&str>)
        ensures
            r.deep_view() == self@.text(key@),
    {
        match self.get(key) {
            Some(j) => j.as_str(),
            None => None,
        }
    }

    /// The count in the member named `key`, where there is such a member and
    /// it is an unsigned integer.
    pub fn count(&self, key: &str) -> (r: Option<u64>)
        ensures
            r == self@.count(key@),
    {
        match self.get(key) {
            Some(j) => j.as_u64(),
            None => None,
        }
    }
}

/// `serde_json`'s document type, carried from the parser to the conversion.
#[verifier::external_type_specification]
#[verifier::external_body]
pub struct ExValue(Value);

/// The value that a `serde_json::Value` holds: its variant, and for an
/// object its members in the order in which its map yields them.
pub uninterp spec fn value_model(value: Value) -> JsonView;

/// The document that `serde_json` reads from `text`, or `None` where it
/// rejects the text.
pub uninterp spec fn text_model(text: Seq<char>) -> Option<JsonView>;

/// `serde_json::from_str` at type `Value`, the error dropped. What it
/// returns is a function of the text alone; the contract gives that result
/// its name and claims nothing else.
#[verifier::external_body]
fn value_from_text(text: &str) -> (r: Option<Value>)
    ensures
        match r {
            Some(value) => text_model(text@) == Some(value_model(value)),
            None => text_model(text@) is None,
        },
{
    serde_json::from_str::<Value>(text).ok()
}

/// Copies a `serde_json::Value` into a `Json`, variant by variant. A number
/// is told apart by `Number::as_u64` and `Number::as_i64`; an object's
/// members are taken in the order of `Map::iter`.
#[verifier::external_body]
fn json_from_value(value: &Value) -> (j: Json)
    ensures
        j@ == value_model(*value),
{
    match value {
        Value::Null => Json::Null,
        Value::Bool(b) => Json::Bool(*b),
        Value::Number(n) => Json::Number(match (n.as_u64(), n.as_i64()) {
            (Some(u), _) => JsonNumber::Unsigned(u),
            (None, Some(i)) => JsonNumber::Negative(i),
            (None, None) => JsonNumber::Float,
        }),
        Value::String(s) => Json::Str(s.clone()),
        Value::Array(items) => Json::Array(items.iter().map(json_from_value).collect()),
        Value::Object(map) => Json::Object(
            map.iter().map(|(k, v)| (k.clone(), json_from_value(v))).collect(),
        ),
    }
}

/// Parses `text` as one JSON document.
pub fn parse_json(text: &str) -> (r: Option<Json>)
    ensures
        r.deep_view() == text_model(text@),
{
    match value_from_text(text) {
        Some(value) => Some(json_from_value(&value)),
        None => None,
    }
}

} // verus!
