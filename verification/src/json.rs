//! JSON documents, read and written by `serde_json`.
//!
//! A [`Json`] holds a `serde_json::Value`. Verus cannot look into such a value, so
//! its content is given a name, [`value_content`], with the tree [`JsonValue`] as
//! its result, and every call into `serde_json` is a small function whose contract
//! is stated over that tree and taken on trust. All other code in the crate is
//! verified against those contracts.

use vstd::prelude::*;

verus! {

#[verifier::external_type_specification]
#[verifier::external_body]
pub struct ExValue(serde_json::Value);

/// A JSON number, as `serde_json` tells numbers apart.
#[derive(Debug, Clone, Copy, PartialEq, Eq, Structural)]
pub enum Number {
    /// An integer from 0 to `u64::MAX`.
    UInt(u64),
    /// An integer below zero, down to `i64::MIN`.
    Int(i64),
    /// Any other number, as the bits of the nearest finite IEEE 754 double.
    Real(u64),
}

impl View for Number {
    type V = Number;

    open spec fn view(&self) -> Number {
        *self
    }
}

/// The content of a JSON document.
pub enum JsonValue {
    Null,
    Bool(bool),
    Number(Number),
    String(Seq<char>),
    Array(Seq<JsonValue>),
    Object(Map<Seq<char>, JsonValue>),
}

impl JsonValue {
    /// The member `key` of an object. An object without that member, or a value
    /// that is no object, has none.
    pub open spec fn member(self, key: Seq<char>) -> Option<JsonValue> {
        match self {
            JsonValue::Object(members) => if members.contains_key(key) {
                Some(members[key])
            } else {
                None
            },
            _ => None,
        }
    }

    /// The value as a `u64`, if it is an integer from 0 to `u64::MAX`.
    pub open spec fn as_u64(self) -> Option<u64> {
        match self {
            JsonValue::Number(Number::UInt(n)) => Some(n),
            _ => None,
        }
    }

    /// The value as an `i64`, if it is an integer from `i64::MIN` to `i64::MAX`.
    pub open spec fn as_i64(self) -> Option<i64> {
        match self {
            JsonValue::Number(Number::UInt(n)) => if n <= i64::MAX {
                Some(n as i64)
            } else {
                None
            },
            JsonValue::Number(Number::Int(n)) => Some(n),
            _ => None,
        }
    }

    /// The characters of a string.
    pub open spec fn as_str(self) -> Option<Seq<char>> {
        match self {
            JsonValue::String(s) => Some(s),
            _ => None,
        }
    }

    /// The items of an array.
    pub open spec fn as_array(self) -> Option<Seq<JsonValue>> {
        match self {
            JsonValue::Array(items) => Some(items),
            _ => None,
        }
    }

    /// The number that an integer stands for in a document.
    pub open spec fn integer(n: int) -> JsonValue {
        if n >= 0 {
            JsonValue::Number(Number::UInt(n as u64))
        } else {
            JsonValue::Number(Number::Int(n as i64))
        }
    }

    /// An object with the members of `self` and the member `key` set to `value`.
    pub open spec fn with(self, key: Seq<char>, value: JsonValue) -> JsonValue {
        match self {
            JsonValue::Object(members) => JsonValue::Object(members.insert(key, value)),
            _ => self,
        }
    }

    /// The object without members.
    pub open spec fn empty_object() -> JsonValue {
        JsonValue::Object(Map::empty())
    }
}

/// What a `serde_json::Value` holds.
pub uninterp spec fn value_content(value: serde_json::Value) -> JsonValue;

/// What `serde_json::from_str` makes of a text: the document that it denotes, or
/// the message of the error that the parser reports.
pub uninterp spec fn parsed_text(text: Seq<char>) -> Result<JsonValue, Seq<char>>;

/// What `serde_json::to_string` makes of a document: its text, or the message of
/// the error that the serializer reports.
pub uninterp spec fn printed_text(doc: JsonValue) -> Result<Seq<char>, Seq<char>>;

/// A JSON document.
pub struct Json {
    value: serde_json::Value,
}

impl View for Json {
    type V = JsonValue;

    closed spec fn view(&self) -> JsonValue {
        value_content(self.value)
    }
}

impl Json {
    /// `serde_json::from_str`, read as a `serde_json::Value`: the result is what
    /// [`parsed_text`] names, the message being the error's `to_string()`.
    #[verifier::external_body]
    fn from_text(text: &str) -> (r: Result<Json, String>)
        ensures
            match r {
                Ok(doc) => parsed_text(text@) == Ok::<JsonValue, Seq<char>>(
                    value_content(doc.value),
                ),
                Err(message) => parsed_text(text@) == Err::<JsonValue, Seq<char>>(message@),
            },
    {
        match serde_json::from_str::<serde_json::Value>(text) {
            Ok(value) => Ok(Json { value }),
            Err(e) => Err(e.to_string()),
        }
    }

    /// `serde_json::to_string` of the value: the result is what [`printed_text`]
    /// names, the message being the error's `to_string()`.
    #[verifier::external_body]
    fn print(&self) -> (r: Result<String, String>)
        ensures
            match r {
                Ok(text) => printed_text(value_content(self.value)) == Ok::<
                    Seq<char>,
                    Seq<char>,
                >(text@),
                Err(message) => printed_text(value_content(self.value)) == Err::<
                    Seq<char>,
                    Seq<char>,
                >(message@),
            },
    {
        serde_json::to_string(&self.value).map_err(|e| e.to_string())
    }

    /// `serde_json::Value::get` with a string key: a copy of the member of that
    /// name, where the value is an object that has one, and nothing otherwise.
    #[verifier::external_body]
    pub(crate) fn member(&self, key: &str) -> (r: Option<Json>)
        ensures
            match r {
                Some(found) => self@.member(key@) == Some(found@),
                None => self@.member(key@) is None,
            },
    {
        self.value.get(key).map(|member| Json { value: member.clone() })
    }

    /// `serde_json::Value::is_object`: whether the value is an object.
    #[verifier::external_body]
    pub(crate) fn is_object(&self) -> (r: bool)
        ensures
            r == (self@ is Object),
    {
        self.value.is_object()
    }

    /// `serde_json::Value::as_u64`: the number, where the value is an integer from
    /// 0 to `u64::MAX`, and nothing otherwise.
    #[verifier::external_body]
    pub(crate) fn as_u64(&self) -> (r: Option<u64>)
        ensures
            r == self@.as_u64(),
    {
        self.value.as_u64()
    }

    /// `serde_json::Value::as_i64`: the number, where the value is an integer from
    /// `i64::MIN` to `i64::MAX`, and nothing otherwise.
    #[verifier::external_body]
    pub(crate) fn as_i64(&self) -> (r: Option<i64>)
        ensures
            r == self@.as_i64(),
    {
        self.value.as_i64()
    }

    /// `serde_json::Value::as_f64`, as the bits of the double: those that the
    /// value holds where it is no integer, the bits of some double where it is an
    /// integer, and nothing where it is no number.
    #[verifier::external_body]
    pub(crate) fn as_double_bits(&self) -> (r: Option<u64>)
        ensures
            match self@ {
                JsonValue::Number(Number::Real(bits)) => r == Some(bits),
                JsonValue::Number(_) => r is Some,
                _ => r is None,
            },
    {
        self.value.as_f64().map(|double| double.to_bits())
    }

    /// `serde_json::Value::as_str`: a copy of the characters, where the value is a
    /// string, and nothing otherwise.
    #[verifier::external_body]
    pub(crate) fn as_str(&self) -> (r: Option<String>)
        ensures
            match r {
                Some(s) => self@.as_str() == Some(s@),
                None => self@.as_str() is None,
            },
    {
        self.value.as_str().map(|s| s.to_owned())
    }

    /// `serde_json::Value::as_array`: copies of the items in their order, where
    /// the value is an array, and nothing otherwise.
    #[verifier::external_body]
    pub(crate) fn as_array(&self) -> (r: Option<Vec<Json>>)
        ensures
            match r {
                Some(items) => self@.as_array() == Some(
                    Seq::new(items.len() as nat, |i: int| items[i]@),
                ),
                None => self@.as_array() is None,
            },
    {
        self.value.as_array().map(
            |items| items.iter().map(|item| Json { value: item.clone() }).collect(),
        )
    }

    /// `serde_json::Value::from` a string slice: the string with those characters.
    #[verifier::external_body]
    pub(crate) fn from_str(s: &str) -> (r: Json)
        ensures
            r@ == JsonValue::String(s@),
    {
        Json { value: serde_json::Value::from(s) }
    }

    /// `serde_json::Value::from` a `bool`.
    #[verifier::external_body]
    pub(crate) fn from_bool(b: bool) -> (r: Json)
        ensures
            r@ == JsonValue::Bool(b),
    {
        Json { value: serde_json::Value::from(b) }
    }

    /// `serde_json::Value::from` a `u64`: the integer.
    #[verifier::external_body]
    pub(crate) fn from_u64(n: u64) -> (r: Json)
        ensures
            r@ == JsonValue::integer(n as int),
    {
        Json { value: serde_json::Value::from(n) }
    }

    /// `serde_json::Value::from` an `i64`: the integer, which `serde_json` holds
    /// as an unsigned number where it is not negative.
    #[verifier::external_body]
    pub(crate) fn from_i64(n: i64) -> (r: Json)
        ensures
            r@ == JsonValue::integer(n as int),
    {
        Json { value: serde_json::Value::from(n) }
    }

    /// `serde_json::Map::new` in `serde_json::Value::Object`: the object without
    /// members.
    #[verifier::external_body]
    pub(crate) fn new_object() -> (r: Json)
        ensures
            r@ == JsonValue::empty_object(),
    {
        Json { value: serde_json::Value::Object(serde_json::Map::new()) }
    }

    /// `serde_json::Map::insert` on the map that `serde_json::Value::as_object_mut`
    /// gives: the member `key` is `member` afterwards, whether or not there was
    /// one, and the others stay. A value that is no object stays as it is.
    #[verifier::external_body]
    pub(crate) fn insert(&mut self, key: &str, member: Json)
        ensures
            final(self)@ == old(self)@.with(key@, member@),
    {
        if let Some(members) = self.value.as_object_mut() {
            members.insert(key.to_owned(), member.value);
        }
    }

    /// Reads a document from its text. An `Err` holds the parser's message.
    pub fn parse(text: &str) -> (r: Result<Json, String>)
        ensures
            match r {
                Ok(doc) => parsed_text(text@) == Ok::<JsonValue, Seq<char>>(doc@),
                Err(message) => parsed_text(text@) == Err::<JsonValue, Seq<char>>(message@),
            },
    {
        Json::from_text(text)
    }

    /// Writes the document as text. An `Err` holds the serializer's message.
    pub fn to_text(&self) -> (r: Result<String, String>)
        ensures
            match r {
                Ok(text) => printed_text(self@) == Ok::<Seq<char>, Seq<char>>(text@),
                Err(message) => printed_text(self@) == Err::<Seq<char>, Seq<char>>(message@),
            },
    {
        self.print()
    }

    /// The value as a number, if it is one.
    pub fn number(&self) -> (r: Option<Number>)
        ensures
            r == match self@ {
                JsonValue::Number(n) => Some(n),
                _ => None,
            },
    {
        match self.as_u64() {
            Some(n) => Some(Number::UInt(n)),
            None => match self.as_i64() {
                Some(n) => Some(Number::Int(n)),
                None => match self.as_double_bits() {
                    Some(bits) => Some(Number::Real(bits)),
                    None => None,
                },
            },
        }
    }
}

} // verus!
