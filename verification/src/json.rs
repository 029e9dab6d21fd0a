//! JSON documents returned by the Senzing server, and the navigation that
//! the SDK's convenience methods perform on them.
//!
//! Text is parsed by `serde_json`; the parsed document is handed to the rest
//! of the library as a [`Json`] value, which holds exactly what the SDK
//! reads: strings, arrays, objects (in the order `serde_json` keeps their
//! members) and, for numbers, their value as an `i64` when they have one.
use vstd::prelude::*;

verus! {

/// A parsed JSON document.
#[derive(Debug)]
pub enum Json {
    Null,
    Bool(bool),
    /// A number, with its value when it is an integer that fits in an
    /// `i64` (`None` for fractions and for integers out of that range).
    Number(Option<i64>),
    String(String),
    Array(Vec<Json>),
    /// An object's members, as (key, value) pairs.
    Object(Vec<(String, Json)>),
}

#[verifier::external_type_specification]
#[verifier::external_body]
pub struct ExSerdeJsonValue(serde_json::Value);

/// What `serde_json::from_str::<serde_json::Value>` gives for `text`: the
/// parsed document, or the text of the parse error.
pub uninterp spec fn serde_json_from_str(text: Seq<char>) -> Result<Json, Seq<char>>;

/// Parses `text` with `serde_json::from_str` into a [`serde_json::Value`]
/// and converts that value into a [`Json`]; on failure, returns the text
/// of the `serde_json` error (`Error::to_string`).
///
/// Nothing is claimed about which texts parse or what the parsed document
/// is: both are the named result [`serde_json_from_str`], which depends on
/// `text` alone.
#[verifier::external_body]
pub(crate) fn parse_json(text: &str) -> (r: Result<Json, String>)
    ensures
        match r {
            Ok(doc) => serde_json_from_str(text@) == Ok::<Json, Seq<char>>(doc),
            Err(message) => serde_json_from_str(text@) == Err::<Json, Seq<char>>(message@),
        },
{
    match serde_json::from_str::<serde_json::Value>(text) {
        Ok(value) => Ok(json_from_serde(value)),
        Err(err) => Err(err.to_string()),
    }
}

/// Converts a [`serde_json::Value`] into a [`Json`], variant by variant:
/// numbers keep their `Number::as_i64` value, objects their members in the
/// map's order. Used only by [`parse_json`].
#[verifier::external_body]
fn json_from_serde(value: serde_json::Value) -> Json {
    match value {
        serde_json::Value::Null => Json::Null,
        serde_json::Value::Bool(b) => Json::Bool(b),
        serde_json::Value::Number(n) => Json::Number(n.as_i64()),
        serde_json::Value::String(s) => Json::String(s),
        serde_json::Value::Array(items) => Json::Array(items.into_iter().map(json_from_serde).collect()),
        serde_json::Value::Object(map) => Json::Object(map.into_iter().map(|(k, v)| (k, json_from_serde(v))).collect()),
    }
}

/// The index of the first member of `members` whose key is `key`.
pub open spec fn member_index(members: Seq<(String, Json)>, key: Seq<char>) -> Option<int>
    decreases members.len(),
{
    if members.len() == 0 {
        None
    } else if members[0].0@ == key {
        Some(0)
    } else {
        match member_index(members.drop_first(), key) {
            Some(i) => Some(i + 1),
            None => None,
        }
    }
}

/// The value of the member named `key` of `value`, when `value` is an
/// object that has one (the first such member).
pub open spec fn json_get(value: Json, key: Seq<char>) -> Option<Json> {
    match value {
        Json::Object(members) => match member_index(members@, key) {
            Some(i) => Some(members@[i].1),
            None => None,
        },
        _ => None,
    }
}

/// [`json_get`] on an optional value.
pub open spec fn json_get_opt(value: Option<Json>, key: Seq<char>) -> Option<Json> {
    match value {
        Some(v) => json_get(v, key),
        None => None,
    }
}

/// The string held by `value`, if it is a string.
pub open spec fn json_str(value: Option<Json>) -> Option<Seq<char>> {
    match value {
        Some(Json::String(s)) => Some(s@),
        _ => None,
    }
}

/// The `i64` value of `value`, if it is a number that has one.
pub open spec fn json_i64(value: Option<Json>) -> Option<i64> {
    match value {
        Some(Json::Number(n)) => n,
        _ => None,
    }
}

/// The elements of `value`, if it is an array.
pub open spec fn json_array(value: Option<Json>) -> Option<Seq<Json>> {
    match value {
        Some(Json::Array(items)) => Some(items@),
        _ => None,
    }
}

/// The string of the member `key` of `value`, or the empty string when
/// there is no such member or it is not a string.
pub open spec fn json_str_or_empty(value: Option<Json>, key: Seq<char>) -> Seq<char> {
    match json_str(json_get_opt(value, key)) {
        Some(s) => s,
        None => Seq::empty(),
    }
}

/// The `i64` of the member `key` of `value`, or 0 when there is no such
/// member or it has no `i64` value.
pub open spec fn json_i64_or_zero(value: Option<Json>, key: Seq<char>) -> i64 {
    match json_i64(json_get_opt(value, key)) {
        Some(n) => n,
        None => 0,
    }
}

/// The first member with key `key` is at index `i` (or there is none, when
/// `i` is the length), given that no member before `i` has that key.
pub proof fn lemma_member_index_first(members: Seq<(String, Json)>, key: Seq<char>, i: int)
    requires
        0 <= i <= members.len(),
        forall|j: int| 0 <= j < i ==> members[j].0@ != key,
        i < members.len() ==> members[i].0@ == key,
    ensures
        member_index(members, key) == (if i < members.len() {
            Some(i)
        } else {
            None::<int>
        }),
    decreases members.len(),
{
    if members.len() > 0 && i > 0 {
        let rest = members.drop_first();
        assert forall|j: int| 0 <= j < i - 1 implies rest[j].0@ != key by {
            assert(rest[j] == members[j + 1]);
        }
        lemma_member_index_first(rest, key, i - 1);
    }
}

impl Json {
    /// The value of the member named `key`, if this is an object that has
    /// one.
    pub fn get(&self, key: &str) -> (r: Option<&Json>)
        ensures
            opt_ref(r) == json_get(*self, key@),
    {
        match self {
            Json::Object(members) => {
                let wanted = key.to_owned();
                let mut i: usize = 0;
                while i < members.len()
                    invariant
                        0 <= i <= members.len(),
                        wanted@ == key@,
                        *self === Json::Object(*members),
                        forall|j: int| 0 <= j < i ==> members@[j].0@ != key@,
                    decreases members.len() - i,
                {
                    if members[i].0 == wanted {
                        proof {
                            lemma_member_index_first(members@, key@, i as int);
                        }
                        return Some(&members[i].1);
                    }
                    i += 1;
                }
                proof {
                    lemma_member_index_first(members@, key@, members.len() as int);
                }
                None
            },
            _ => None,
        }
    }

    /// The string held by this value, if it is a string.
    pub fn as_str(&self) -> (r: Option<&String>)
        ensures
            match r {
                Some(s) => json_str(Some(*self)) == Some(s@),
                None => json_str(Some(*self)) is None,
            },
    {
        match self {
            Json::String(s) => Some(s),
            _ => None,
        }
    }

    /// The `i64` value of this value, if it is a number that has one.
    pub fn as_i64(&self) -> (r: Option<i64>)
        ensures
            r == json_i64(Some(*self)),
    {
        match self {
            Json::Number(n) => *n,
            _ => None,
        }
    }

    /// The elements of this value, if it is an array.
    pub fn as_array(&self) -> (r: Option<&Vec<Json>>)
        ensures
            match r {
                Some(items) => json_array(Some(*self)) == Some(items@),
                None => json_array(Some(*self)) is None,
            },
    {
        match self {
            Json::Array(items) => Some(items),
            _ => None,
        }
    }
}

/// The value behind an optional reference.
pub open spec fn opt_ref(value: Option<&Json>) -> Option<Json> {
    match value {
        Some(v) => Some(*v),
        None => None,
    }
}

/// Follows `key` from an optional value.
pub fn get_opt<'a>(value: Option<&'a Json>, key: &str) -> (r: Option<&'a Json>)
    ensures
        opt_ref(r) == json_get_opt(opt_ref(value), key@),
{
    match value {
        Some(v) => v.get(key),
        None => None,
    }
}

/// The string member `key` of `value`, or the empty string when there is
/// no such member or it is not a string.
pub fn str_member_or_empty(value: &Json, key: &str) -> (s: String)
    ensures
        s@ == json_str_or_empty(Some(*value), key@),
{
    match value.get(key) {
        Some(member) => match member.as_str() {
            Some(text) => text.clone(),
            None => String::new(),
        },
        None => String::new(),
    }
}

/// The `i64` member `key` of `value`, or 0 when there is no such member or
/// it has no `i64` value.
pub fn i64_member_or_zero(value: &Json, key: &str) -> (n: i64)
    ensures
        n == json_i64_or_zero(Some(*value), key@),
{
    match value.get(key) {
        Some(member) => match member.as_i64() {
            Some(n) => n,
            None => 0,
        },
        None => 0,
    }
}

} // verus!
