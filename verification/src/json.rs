//! A JSON document model: the values the gateway reads from and writes to
//! the platforms, webhooks and subscribers.

use serde_json::{Number, Value};
use vstd::prelude::*;
use crate::text::{str_eq, owned};

verus! {

/// A JSON number, as the JSON reader classifies it.
#[derive(Debug, PartialEq)]
pub enum JsonNumber {
    /// A non-negative integer that fits in a `u64`.
    PosInt(u64),
    /// A negative integer that fits in an `i64`.
    NegInt(i64),
    /// Any other number, kept in its decimal notation.
    Float(String),
}

/// A JSON value. Objects keep their members in order; lookups return the
/// first member with the requested key.
#[derive(Debug, PartialEq)]
pub enum JsonValue {
    Null,
    Bool(bool),
    Number(JsonNumber),
    Str(String),
    Array(Vec<JsonValue>),
    Object(Vec<(String, JsonValue)>),
}

/// The value of the first member of `entries` whose key is `key`.
pub open spec fn find_member(entries: Seq<(String, JsonValue)>, key: Seq<char>) -> Option<JsonValue>
    decreases entries.len(),
{
    if entries.len() == 0 {
        None
    } else if entries[0].0@ == key {
        Some(entries[0].1)
    } else {
        find_member(entries.drop_first(), key)
    }
}

/// A member entry whose key is `key` and whose value is the string `value`.
pub open spec fn is_str_member(entry: (String, JsonValue), key: Seq<char>, value: Seq<char>) -> bool {
    &&& entry.0@ == key
    &&& entry.1 matches JsonValue::Str(s) && s@ == value
}

/// A value that is the string `value`.
pub open spec fn is_str_value(v: JsonValue, value: Seq<char>) -> bool {
    v matches JsonValue::Str(s) && s@ == value
}

impl JsonValue {
    /// What `get` returns: the member `key` of an object, `None` for any
    /// other kind of value.
    pub open spec fn spec_get(self, key: Seq<char>) -> Option<JsonValue> {
        match self {
            JsonValue::Object(entries) => find_member(entries@, key),
            _ => None,
        }
    }

    /// The text of a string value.
    pub open spec fn spec_as_str(self) -> Option<Seq<char>> {
        match self {
            JsonValue::Str(s) => Some(s@),
            _ => None,
        }
    }

    /// The value of a boolean.
    pub open spec fn spec_as_bool(self) -> Option<bool> {
        match self {
            JsonValue::Bool(b) => Some(b),
            _ => None,
        }
    }

    /// The value of a non-negative integer that fits in a `u64`.
    pub open spec fn spec_as_u64(self) -> Option<u64> {
        match self {
            JsonValue::Number(JsonNumber::PosInt(n)) => Some(n),
            _ => None,
        }
    }

    /// The string found at member `key`, if the member exists and is a string.
    pub open spec fn str_at(self, key: Seq<char>) -> Option<Seq<char>> {
        match self.spec_get(key) {
            Some(v) => v.spec_as_str(),
            None => None,
        }
    }

    /// Looks up member `key` of an object.
    pub fn get(&self, key: &str) -> (res: Option<&JsonValue>)
        ensures
            res matches Some(v) ==> self.spec_get(key@) == Some(*v),
            res is None ==> self.spec_get(key@) is None,
    {
        match self {
            JsonValue::Object(entries) => {
                let n = entries.len();
                let mut i: usize = 0;
                assert(entries@.skip(0) =~= entries@);
                while i < n
                    invariant
                        n == entries@.len(),
                        i <= n,
                        self.spec_get(key@) == find_member(entries@, key@),
                        find_member(entries@, key@) == find_member(entries@.skip(i as int), key@),
                    decreases n - i,
                {
                    assert(entries@.skip(i as int).drop_first() =~= entries@.skip(i + 1));
                    assert(entries@.skip(i as int)[0] == entries@[i as int]);
                    let entry = &entries[i];
                    if str_eq(entry.0.as_str(), key) {
                        return Some(&entry.1);
                    }
                    i = i + 1;
                }
                None
            },
            _ => None,
        }
    }

    /// The text of a string value.
    pub fn as_str(&self) -> (res: Option<&str>)
        ensures
            res matches Some(s) ==> self.spec_as_str() == Some(s@),
            res is None ==> self.spec_as_str() is None,
    {
        match self {
            JsonValue::Str(s) => Some(s.as_str()),
            _ => None,
        }
    }

    /// The value of a boolean.
    pub fn as_bool(&self) -> (res: Option<bool>)
        ensures
            res == self.spec_as_bool(),
    {
        match self {
            JsonValue::Bool(b) => Some(*b),
            _ => None,
        }
    }

    /// The value of a non-negative integer that fits in a `u64`.
    pub fn as_u64(&self) -> (res: Option<u64>)
        ensures
            res == self.spec_as_u64(),
    {
        match self {
            JsonValue::Number(JsonNumber::PosInt(n)) => Some(*n),
            _ => None,
        }
    }

    /// The string at member `key`, copied.
    pub fn string_at(&self, key: &str) -> (res: Option<String>)
        ensures
            res matches Some(s) ==> self.str_at(key@) == Some(s@),
            res is None ==> self.str_at(key@) is None,
    {
        match self.get(key) {
            Some(v) => match v.as_str() {
                Some(s) => Some(owned(s)),
                None => None,
            },
            None => None,
        }
    }

    /// A string value holding `s`.
    pub fn from_str_slice(s: &str) -> (res: JsonValue)
        ensures
            is_str_value(res, s@),
    {
        JsonValue::Str(owned(s))
    }

    /// An object with the single member `key: value`.
    pub fn single(key: &str, value: JsonValue) -> (res: JsonValue)
        ensures
            res matches JsonValue::Object(entries) && entries@.len() == 1 && entries@[0].0@ == key@
                && entries@[0].1 == value,
    {
        let mut entries: Vec<(String, JsonValue)> = Vec::new();
        entries.push((owned(key), value));
        JsonValue::Object(entries)
    }
}

/// `Value`, carried through the readers and writers below.
#[verifier::external_type_specification]
#[verifier::external_body]
pub struct ExSerdeJsonValue(Value);

/// Converts a `Value` into the model, member for member:
/// integers that fit a `u64` or an `i64` stay integers, other numbers keep
/// their decimal text, object members keep the reader's order.
#[verifier::external_body]
fn from_serde_value(v: &Value) -> JsonValue {
    match v {
        Value::Null => JsonValue::Null,
        Value::Bool(b) => JsonValue::Bool(*b),
        Value::Number(n) => JsonValue::Number(match (n.as_u64(), n.as_i64()) {
            (Some(u), _) => JsonNumber::PosInt(u),
            (None, Some(i)) => JsonNumber::NegInt(i),
            (None, None) => JsonNumber::Float(n.to_string()),
        }),
        Value::String(t) => JsonValue::Str(t.clone()),
        Value::Array(items) => JsonValue::Array(items.iter().map(from_serde_value).collect()),
        Value::Object(m) => JsonValue::Object(m.iter().map(|(k, x)| (k.clone(), from_serde_value(x))).collect()),
    }
}

/// Converts the model into a `Value`, member for member. The model must be
/// writable: its object keys are distinct, so no member is lost when the
/// members go into serde's map, and its number texts read as JSON numbers.
#[verifier::external_body]
fn to_serde_value(v: &JsonValue) -> Value
    requires
        writable(*v),
{
    match v {
        JsonValue::Null => Value::Null,
        JsonValue::Bool(b) => Value::Bool(*b),
        JsonValue::Number(JsonNumber::PosInt(u)) => Value::from(*u),
        JsonValue::Number(JsonNumber::NegInt(i)) => Value::from(*i),
        JsonValue::Number(JsonNumber::Float(t)) => Value::Number(t.parse::<Number>().expect("a writable number text")),
        JsonValue::Str(t) => Value::String(t.clone()),
        JsonValue::Array(items) => Value::Array(items.iter().map(to_serde_value).collect()),
        JsonValue::Object(m) => Value::Object(m.iter().map(|(k, x)| (k.clone(), to_serde_value(x))).collect()),
    }
}

/// Whether `t` reads as a JSON number with `str::parse::<serde_json::Number>`.
pub uninterp spec fn number_text_reads(t: Seq<char>) -> bool;

/// `str::parse::<serde_json::Number>` succeeds on `t`.
#[verifier::external_body]
fn number_text_is_valid(t: &str) -> (res: bool)
    ensures
        res == number_text_reads(t@),
{
    t.parse::<Number>().is_ok()
}

/// No two members share a key.
pub open spec fn distinct_keys(members: Seq<(String, JsonValue)>) -> bool {
    forall|i: int, j: int| 0 <= i < j < members.len() ==> (#[trigger] members[i]).0@ != (#[trigger] members[j]).0@
}

/// A value that JSON can express as it stands: every object's keys are
/// distinct and every number text reads as a JSON number. Every value the
/// JSON reader produces is writable.
pub open spec fn writable(v: JsonValue) -> bool
    decreases v,
{
    match v {
        JsonValue::Number(JsonNumber::Float(t)) => number_text_reads(t@),
        JsonValue::Array(items) => forall|i: int| 0 <= i < items@.len() ==> writable(#[trigger] items@[i]),
        JsonValue::Object(members) => distinct_keys(members@)
            && forall|i: int| 0 <= i < members@.len() ==> writable(#[trigger] members@[i].1),
        _ => true,
    }
}

/// The JSON value that `serde_json::from_slice` reads from `bytes`, `None`
/// when `bytes` is not one JSON document.
pub uninterp spec fn json_of_bytes(bytes: Seq<u8>) -> Option<JsonValue>;

/// `serde_json::from_slice::<serde_json::Value>`, with its error dropped and
/// the value converted into the model. Which value comes out is named, not
/// spelled out: it is a function of the bytes alone.
/// Every value the reader produces is writable: serde's map holds each key
/// once, and a number that is neither a `u64` nor an `i64` is written as the
/// shortest text that reads back as the same number.
#[verifier::external_body]
pub(crate) fn parse_json(bytes: &[u8]) -> (res: Option<JsonValue>)
    ensures
        res == json_of_bytes(bytes@),
        res matches Some(v) ==> writable(v),
{
    match serde_json::from_slice::<Value>(bytes) {
        Ok(v) => Some(from_serde_value(&v)),
        Err(_) => None,
    }
}

/// The compact JSON text that `serde_json::Value`'s `to_string` writes for
/// `v`.
pub uninterp spec fn json_text(v: JsonValue) -> Seq<char>;

/// `to_string` of the value converted into a `serde_json::Value`: compact
/// JSON text. Which text comes out is named, not spelled out: it is a
/// function of the value alone.
#[verifier::external_body]
pub(crate) fn json_to_string(v: &JsonValue) -> (res: String)
    requires
        writable(*v),
    ensures
        res@ == json_text(*v),
{
    to_serde_value(v).to_string()
}

/// Checks that `members` holds each key once.
fn keys_distinct(members: &Vec<(String, JsonValue)>) -> (res: bool)
    ensures
        res == distinct_keys(members@),
{
    let n = members.len();
    let mut j: usize = 0;
    while j < n
        invariant
            n == members@.len(),
            j <= n,
            forall|a: int, b: int| 0 <= a < b < j ==> (#[trigger] members@[a]).0@ != (#[trigger] members@[b]).0@,
        decreases n - j,
    {
        let mut i: usize = 0;
        while i < j
            invariant
                n == members@.len(),
                i <= j < n,
                forall|a: int, b: int| 0 <= a < b < j ==> (#[trigger] members@[a]).0@ != (#[trigger] members@[b]).0@,
                forall|a: int| 0 <= a < i ==> (#[trigger] members@[a]).0@ != members@[j as int].0@,
            decreases j - i,
        {
            if str_eq(members[i].0.as_str(), members[j].0.as_str()) {
                return false;
            }
            i = i + 1;
        }
        j = j + 1;
    }
    true
}

/// Checks that `v` is writable.
pub fn is_writable(v: &JsonValue) -> (res: bool)
    ensures
        res == writable(*v),
    decreases v,
{
    match v {
        JsonValue::Number(JsonNumber::Float(t)) => number_text_is_valid(t.as_str()),
        JsonValue::Array(items) => {
            let n = items.len();
            let mut i: usize = 0;
            while i < n
                invariant
                    n == items@.len(),
                    i <= n,
                    *v == JsonValue::Array(*items),
                    forall|k: int| 0 <= k < i ==> writable(#[trigger] items@[k]),
                decreases n - i,
            {
                proof {
                    assert(decreases_to!(*v => (*v)->Array_0));
                    assert(decreases_to!(*items => items@));
                    assert(decreases_to!(items@ => items@[i as int]));
                }
                if !is_writable(&items[i]) {
                    assert(!writable(items@[i as int]));
                    return false;
                }
                i = i + 1;
            }
            true
        },
        JsonValue::Object(members) => {
            if !keys_distinct(members) {
                return false;
            }
            let n = members.len();
            let mut i: usize = 0;
            while i < n
                invariant
                    n == members@.len(),
                    i <= n,
                    *v == JsonValue::Object(*members),
                    distinct_keys(members@),
                    forall|k: int| 0 <= k < i ==> writable(#[trigger] members@[k].1),
                decreases n - i,
            {
                proof {
                    assert(decreases_to!(*v => (*v)->Object_0));
                    assert(decreases_to!(*members => members@));
                    assert(decreases_to!(members@ => members@[i as int]));
                    assert(decreases_to!(members@[i as int] => members@[i as int].1));
                }
                if !is_writable(&members[i].1) {
                    assert(!writable(members@[i as int].1));
                    return false;
                }
                i = i + 1;
            }
            true
        },
        _ => true,
    }
}

} // verus!
