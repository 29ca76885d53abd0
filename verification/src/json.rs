//! JSON text: string literals for output, and the values read from
//! translation responses.

use vstd::prelude::*;

verus! {

/// A JSON value as read from a response. Numbers keep their text.
#[derive(Debug)]
pub enum Json {
    Null,
    Bool(bool),
    Number(String),
    Str(String),
    Array(Vec<Json>),
    Object(Vec<(String, Json)>),
}

/// The `i`-th element of an array; nothing for anything else.
pub open spec fn jget(v: Json, i: int) -> Option<Json> {
    match v {
        Json::Array(a) => if 0 <= i < a@.len() {
            Some(a@[i])
        } else {
            None
        },
        _ => None,
    }
}

/// The text of a string value.
pub open spec fn jstr(v: Option<Json>) -> Option<Seq<char>> {
    match v {
        Some(Json::Str(s)) => Some(s@),
        _ => None,
    }
}

/// The elements of an array value.
pub open spec fn jarr(v: Option<Json>) -> Option<Seq<Json>> {
    match v {
        Some(Json::Array(a)) => Some(a@),
        _ => None,
    }
}

impl Json {
    /// The `i`-th element of an array (`Value::get` with an index).
    pub fn get(&self, i: usize) -> (r: Option<&Json>)
        ensures
            match r {
                Some(x) => jget(*self, i as int) == Some(*x),
                None => jget(*self, i as int) is None,
            },
    {
        match self {
            Json::Array(a) => if i < a.len() {
                Some(&a[i])
            } else {
                None
            },
            _ => None,
        }
    }

    /// The text of a string value (`Value::as_str`).
    pub fn as_str(&self) -> (r: Option<&str>)
        ensures
            match r {
                Some(s) => jstr(Some(*self)) == Some(s@),
                None => jstr(Some(*self)) is None,
            },
    {
        match self {
            Json::Str(s) => Some(s.as_str()),
            _ => None,
        }
    }

    /// The elements of an array value (`Value::as_array`).
    pub fn as_array(&self) -> (r: Option<&Vec<Json>>)
        ensures
            match r {
                Some(a) => jarr(Some(*self)) == Some(a@),
                None => jarr(Some(*self)) is None,
            },
    {
        match self {
            Json::Array(a) => Some(a),
            _ => None,
        }
    }
}

/// Lower-case hex digit of a value below sixteen.
pub open spec fn lower_hex(n: u32) -> char {
    if n < 10 {
        (48 + n) as char
    } else {
        (87 + n) as char
    }
}

/// How one character is written inside a JSON string.
pub open spec fn json_char_of(c: char) -> Seq<char> {
    if c == '"' {
        seq!['\\', '"']
    } else if c == '\\' {
        seq!['\\', '\\']
    } else if c == '\u{8}' {
        seq!['\\', 'b']
    } else if c == '\t' {
        seq!['\\', 't']
    } else if c == '\n' {
        seq!['\\', 'n']
    } else if c == '\u{c}' {
        seq!['\\', 'f']
    } else if c == '\r' {
        seq!['\\', 'r']
    } else if (c as u32) < 32 {
        seq!['\\', 'u', '0', '0', lower_hex((c as u32) / 16), lower_hex((c as u32) % 16)]
    } else {
        seq![c]
    }
}

/// The escaped body of a JSON string.
pub open spec fn json_body_of(s: Seq<char>) -> Seq<char>
    decreases s.len(),
{
    if s.len() == 0 {
        Seq::empty()
    } else {
        json_body_of(s.drop_last()) + json_char_of(s.last())
    }
}

/// A text as a JSON string literal.
pub open spec fn json_string_of(s: Seq<char>) -> Seq<char> {
    seq!['"'] + json_body_of(s) + seq!['"']
}

/// A text as a JSON string literal (`serde_json::to_string` on a `&str`):
/// quotes around it, `"` and `\` escaped, the short escapes for backspace,
/// tab, line feed, form feed and carriage return, `\u00xx` with lower-case
/// hex for the other control characters below 0x20, everything else as it
/// is. Serializing a string into memory does not fail, so the error arm is
/// never taken.
#[verifier::external_body]
pub(crate) fn quote(s: &str) -> (r: String)
    ensures
        r@ == json_string_of(s@),
{
    match serde_json::to_string(s) {
        Ok(j) => j,
        Err(_) => String::new(),
    }
}

#[verifier::external_type_specification]
#[verifier::external_body]
pub struct ExJsonValue(serde_json::Value);

/// What `serde_json::from_str` makes of a text read as a JSON value: the
/// value, or the text of its error.
pub uninterp spec fn parsed_json(body: Seq<char>) -> Result<Json, Seq<char>>;

/// The view of a parse outcome.
pub open spec fn json_result(r: Result<Json, String>) -> Result<Json, Seq<char>> {
    match r {
        Ok(v) => Ok(v),
        Err(m) => Err(m@),
    }
}

/// The library's value for a `serde_json::Value`, variant by variant.
#[verifier::external_body]
fn from_value(v: serde_json::Value) -> Json {
    match v {
        serde_json::Value::Null => Json::Null,
        serde_json::Value::Bool(b) => Json::Bool(b),
        serde_json::Value::Number(n) => Json::Number(n.to_string()),
        serde_json::Value::String(s) => Json::Str(s),
        serde_json::Value::Array(a) => Json::Array(a.into_iter().map(from_value).collect()),
        serde_json::Value::Object(o) => Json::Object(o.into_iter().map(|(k, x)| (k, from_value(x))).collect()),
    }
}

/// Reads a text as one JSON value (`serde_json::from_str` into a
/// `serde_json::Value`), or gives the parser's error message. The contract
/// names the outcome and says nothing of which texts are valid JSON.
#[verifier::external_body]
pub fn parse_json(body: &str) -> (r: Result<Json, String>)
    ensures
        json_result(r) == parsed_json(body@),
{
    match serde_json::from_str::<serde_json::Value>(body) {
        Ok(v) => Ok(from_value(v)),
        Err(e) => Err(e.to_string()),
    }
}

} // verus!
