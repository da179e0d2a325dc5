//! The JSON objects that events carry.
use crate::text::{decimal, digit};
use vstd::prelude::*;

verus! {

/// A member value of an event's JSON object.
pub enum JsonValue {
    Null,
    Bool(bool),
    Number(i64),
    Text(String),
}

/// What a member value stands for.
pub enum Json {
    Null,
    Bool(bool),
    Number(int),
    Text(Seq<char>),
}

impl View for JsonValue {
    type V = Json;

    open spec fn view(&self) -> Json {
        match *self {
            JsonValue::Null => Json::Null,
            JsonValue::Bool(b) => Json::Bool(b),
            JsonValue::Number(n) => Json::Number(n as int),
            JsonValue::Text(t) => Json::Text(t@),
        }
    }
}

/// A member of an event's JSON object.
pub struct JsonMember {
    pub key: &'static str,
    pub value: JsonValue,
}

impl View for JsonMember {
    type V = (Seq<char>, Json);

    open spec fn view(&self) -> (Seq<char>, Json) {
        (self.key@, self.value@)
    }
}

/// A character within a JSON string: the quote, the backslash and the control
/// characters are escaped, in the short form where there is one.
pub open spec fn json_escape(c: char) -> Seq<char> {
    if c == '"' || c == '\\' {
        seq!['\\', c]
    } else if c == '\n' {
        seq!['\\', 'n']
    } else if c == '\r' {
        seq!['\\', 'r']
    } else if c == '\t' {
        seq!['\\', 't']
    } else if c as int == 8 {
        seq!['\\', 'b']
    } else if c as int == 12 {
        seq!['\\', 'f']
    } else if (c as int) < 32 {
        seq!['\\', 'u', '0', '0', digit(c as int / 16), digit(c as int % 16)]
    } else {
        seq![c]
    }
}

/// The characters of a JSON string between its quotes.
pub open spec fn json_escapes(s: Seq<char>) -> Seq<char>
    decreases s.len(),
{
    if s.len() == 0 {
        Seq::empty()
    } else {
        json_escapes(s.drop_last()) + json_escape(s.last())
    }
}

/// The JSON text of a string.
pub open spec fn json_string(s: Seq<char>) -> Seq<char> {
    seq!['"'] + json_escapes(s) + seq!['"']
}

/// The JSON text of a member value.
pub open spec fn json_value(v: Json) -> Seq<char> {
    match v {
        Json::Null => seq!['n', 'u', 'l', 'l'],
        Json::Bool(b) => if b {
            seq!['t', 'r', 'u', 'e']
        } else {
            seq!['f', 'a', 'l', 's', 'e']
        },
        Json::Number(n) => decimal(n),
        Json::Text(t) => json_string(t),
    }
}

/// The members of a JSON object, separated by commas, without spaces.
pub open spec fn json_members(members: Seq<(Seq<char>, Json)>) -> Seq<char>
    decreases members.len(),
{
    if members.len() == 0 {
        Seq::empty()
    } else {
        let (key, value) = members.last();
        let member = json_string(key) + seq![':'] + json_value(value);
        if members.len() == 1 {
            member
        } else {
            json_members(members.drop_last()) + seq![','] + member
        }
    }
}

/// The compact JSON text of an object with the given members.
pub open spec fn json_object(members: Seq<(Seq<char>, Json)>) -> Seq<char> {
    seq!['{'] + json_members(members) + seq!['}']
}

/// The first key stands before the second in the order of their characters.
pub open spec fn key_before(a: Seq<char>, b: Seq<char>) -> bool {
    exists|k: int|
        #![trigger a.take(k), b.take(k)]
        0 <= k <= a.len() && k < b.len() && a.take(k) == b.take(k) && (k == a.len() || a[k] < b[k])
}

/// The members of an object as they are meant.
pub open spec fn members_of(members: Seq<JsonMember>) -> Seq<(Seq<char>, Json)> {
    members.map_values(|m: JsonMember| m@)
}

/// `serde_json::Value::to_string`, on a `Value::Object` that holds the members,
/// gives the compact JSON text. `serde_json::Map` keeps its keys in order, so the
/// members come in the order of their keys, which is the order they are given in.
#[verifier::external_body]
pub(crate) fn object_text(members: &Vec<JsonMember>) -> (res: String)
    requires
        forall|i: int|
            0 < i < members@.len() ==> key_before(
                members@[i - 1].key@,
                (#[trigger] members@[i]).key@,
            ),
    ensures
        res@ == json_object(members_of(members@)),
{
    let mut map = serde_json::Map::new();
    for member in members {
        let value = match &member.value {
            JsonValue::Null => serde_json::Value::Null,
            JsonValue::Bool(b) => serde_json::Value::from(*b),
            JsonValue::Number(n) => serde_json::Value::from(*n),
            JsonValue::Text(t) => serde_json::Value::from(t.as_str()),
        };
        map.insert(member.key.to_owned(), value);
    }
    serde_json::Value::Object(map).to_string()
}

} // verus!
