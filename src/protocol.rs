//! The daemon's wire format: `{"prompt": ...}` requests and
//! `{"fixes": [...]}` or `{"error": ...}` answers, through serde_json.

use vstd::prelude::*;
use vstd::string::*;
use serde_json::Value;
use crate::daemon::{InferRequest, Payload};
use crate::dispatch::DaemonReply;
use crate::download::hex_digits;
use crate::text::views;

verus! {

#[verifier::external_type_specification]
#[verifier::external_body]
pub struct ExValue(Value);

/// A JSON value. Numbers keep their text; an object's members are listed
/// with distinct keys.
pub enum Json {
    Null,
    Bool(bool),
    Number(String),
    Str(String),
    Array(Vec<Json>),
    Object(Vec<(String, Json)>),
}

/// What `serde_json::from_str::<Value>` makes of `s`, as a [`Json`]: `None`
/// when `s` is no JSON.
pub uninterp spec fn json_of(s: Seq<char>) -> Option<Json>;

/// Converts a serde_json value into a [`Json`], variant by variant.
#[verifier::external_body]
fn to_json(v: &Value) -> Json {
    match v {
        Value::Null => Json::Null,
        Value::Bool(b) => Json::Bool(*b),
        Value::Number(n) => Json::Number(n.to_string()),
        Value::String(s) => Json::Str(s.clone()),
        Value::Array(a) => Json::Array(a.iter().map(to_json).collect()),
        Value::Object(m) => Json::Object(m.iter().map(|(k, x)| (k.clone(), to_json(x))).collect()),
    }
}

/// Relies on `serde_json::from_str::<Value>`, whose result depends on the
/// text alone.
#[verifier::external_body]
fn parse_json(s: &str) -> (r: Option<Json>)
    ensures
        r == json_of(s@),
{
    match serde_json::from_str::<Value>(s) {
        Ok(v) => Some(to_json(&v)),
        Err(_) => None,
    }
}

/// How serde_json writes one character inside a string literal: quote and
/// backslash escaped, control characters by their short escape or as
/// `\u00XX`, everything else as it is.
pub open spec fn escape_char(c: char) -> Seq<char> {
    if c == '"' {
        seq!['\\', '"']
    } else if c == '\\' {
        seq!['\\', '\\']
    } else if c == '\u{8}' {
        seq!['\\', 'b']
    } else if c == '\t' {
        seq!['\\', 't']
    } else if c == '\n' {
        seq!['\\', 'n']
    } else if c == '\u{c}' {
        seq!['\\', 'f']
    } else if c == '\r' {
        seq!['\\', 'r']
    } else if (c as u32) < 0x20 {
        seq!['\\', 'u', '0', '0', hex_digits()[(c as u32) as int / 16], hex_digits()[(c as u32) as int % 16]]
    } else {
        seq![c]
    }
}

pub open spec fn escaped(s: Seq<char>) -> Seq<char>
    decreases s.len(),
{
    if s.len() == 0 {
        Seq::empty()
    } else {
        escaped(s.drop_last()) + escape_char(s.last())
    }
}

/// A string as a JSON string literal.
pub open spec fn json_string(s: Seq<char>) -> Seq<char> {
    seq!['"'] + escaped(s) + seq!['"']
}

/// The literals of the strings, separated by commas.
pub open spec fn json_items(l: Seq<Seq<char>>) -> Seq<char>
    decreases l.len(),
{
    if l.len() == 0 {
        Seq::empty()
    } else if l.len() == 1 {
        json_string(l[0])
    } else {
        json_items(l.drop_last()) + seq![','] + json_string(l.last())
    }
}

/// A list of strings as a compact JSON array.
pub open spec fn json_strings(l: Seq<Seq<char>>) -> Seq<char> {
    seq!['['] + json_items(l) + seq![']']
}

/// Relies on `serde_json::to_string` for a string, which writes the escaped
/// literal into a byte vector and so cannot fail.
#[verifier::external_body]
fn encode_string(s: &str) -> (r: String)
    ensures
        r@ == json_string(s@),
{
    serde_json::to_string(s).unwrap_or_default()
}

/// Relies on `serde_json::to_string` for a list of strings: a compact array
/// of their literals; it writes into a byte vector and so cannot fail.
#[verifier::external_body]
fn encode_strings(v: &Vec<String>) -> (r: String)
    ensures
        r@ == json_strings(views(v@)),
{
    serde_json::to_string(v).unwrap_or_default()
}

/// The member `key` of an object's members, if there is one.
pub open spec fn member_from(fields: Seq<(String, Json)>, key: Seq<char>, i: int) -> Option<Json>
    decreases fields.len() - i,
{
    if i < 0 || i >= fields.len() {
        None
    } else if fields[i].0@ == key {
        Some(fields[i].1)
    } else {
        member_from(fields, key, i + 1)
    }
}

/// The member `key` of `j`, when `j` is an object that has one.
pub open spec fn member_of(j: Json, key: Seq<char>) -> Option<Json> {
    match j {
        Json::Object(fields) => member_from(fields@, key, 0),
        _ => None,
    }
}

fn find_member(fields: &Vec<(String, Json)>, key: &str) -> (r: Option<usize>)
    ensures
        match r {
            Some(i) => i < fields@.len() && member_from(fields@, key@, 0) == Some(fields@[i as int].1),
            None => member_from(fields@, key@, 0) is None,
        },
{
    let k = String::from_str(key);
    let mut i: usize = 0;
    while i < fields.len()
        invariant
            i <= fields@.len(),
            k@ == key@,
            member_from(fields@, key@, 0) == member_from(fields@, key@, i as int),
        decreases fields@.len() - i,
    {
        if fields[i].0 == k {
            return Some(i);
        }
        i = i + 1;
    }
    None
}

/// The prompt of a request: the string member `prompt`.
pub open spec fn prompt_spec(j: Json) -> Option<Seq<char>> {
    match member_of(j, "prompt"@) {
        Some(Json::Str(t)) => Some(t@),
        _ => None,
    }
}

/// Reads an inference request's body (`None`: it could not be read).
pub fn decode_infer_request(body: Option<&str>) -> (r: InferRequest)
    ensures
        match body {
            None => r is Unreadable,
            Some(b) => match json_of(b@) {
                None => r is InvalidJson,
                Some(j) => match prompt_spec(j) {
                    Some(t) => r matches InferRequest::Prompt(p) && p@ == t,
                    None => r is MissingPrompt,
                },
            },
        },
{
    match body {
        None => InferRequest::Unreadable,
        Some(b) => match parse_json(b) {
            None => InferRequest::InvalidJson,
            Some(j) => match &j {
                Json::Object(fields) => match find_member(fields, "prompt") {
                    Some(i) => match &fields[i].1 {
                        Json::Str(t) => InferRequest::Prompt(t.clone()),
                        _ => InferRequest::MissingPrompt,
                    },
                    None => InferRequest::MissingPrompt,
                },
                _ => InferRequest::MissingPrompt,
            },
        },
    }
}

/// `{"<key>":<value>}`.
pub open spec fn object_of(key: Seq<char>, value: Seq<char>) -> Seq<char> {
    "{\""@ + key + "\":"@ + value + "}"@
}

fn object(key: &str, value: &str) -> (r: String)
    ensures
        r@ == object_of(key@, value@),
{
    let mut r = String::new();
    r.append("{\"");
    r.append(key);
    r.append("\":");
    r.append(value);
    r.append("}");
    r
}

/// The bytes of a response body, and whether it is JSON.
pub fn response_body(payload: &Payload) -> (r: (String, bool))
    ensures
        match payload {
            Payload::Text(t) => r.0@ == t@ && !r.1,
            Payload::Fixes(f) => r.1 && r.0@ == object_of("fixes"@, json_strings(views(f@))),
            Payload::Error(e) => r.1 && r.0@ == object_of("error"@, json_string(e@)),
        },
{
    match payload {
        Payload::Text(t) => (t.clone(), false),
        Payload::Fixes(f) => (object("fixes", encode_strings(f).as_str()), true),
        Payload::Error(e) => (object("error", encode_string(e.as_str()).as_str()), true),
    }
}

/// The body of an inference request for `prompt`.
pub fn infer_request_body(prompt: &str) -> (r: String)
    ensures
        r@ == object_of("prompt"@, json_string(prompt@)),
{
    object("prompt", encode_string(prompt).as_str())
}

/// The texts of the string elements, in order; other elements are skipped.
pub open spec fn strings_of(items: Seq<Json>) -> Seq<Seq<char>>
    decreases items.len(),
{
    if items.len() == 0 {
        Seq::empty()
    } else {
        strings_of(items.drop_last()) + match items.last() {
            Json::Str(t) => seq![t@],
            _ => Seq::empty(),
        }
    }
}

/// The fixes that a daemon's answer holds: the string elements of the array
/// member `fixes` of a JSON object; `None` for anything else.
pub open spec fn fixes_spec(j: Option<Json>) -> Option<Seq<Seq<char>>> {
    match j {
        Some(v) => match member_of(v, "fixes"@) {
            Some(Json::Array(items)) => Some(strings_of(items@)),
            _ => None,
        },
        None => None,
    }
}

/// Reads the daemon's answer.
pub fn decode_fixes(text: &str) -> (r: DaemonReply)
    ensures
        match fixes_spec(json_of(text@)) {
            Some(l) => r matches DaemonReply::Fixes(f) && views(f@) == l,
            None => r is Failed,
        },
{
    let j = match parse_json(text) {
        Some(j) => j,
        None => return DaemonReply::Failed,
    };
    let fields = match &j {
        Json::Object(fields) => fields,
        _ => return DaemonReply::Failed,
    };
    let i = match find_member(fields, "fixes") {
        Some(i) => i,
        None => return DaemonReply::Failed,
    };
    let items = match &fields[i].1 {
        Json::Array(items) => items,
        _ => return DaemonReply::Failed,
    };
    let mut fixes: Vec<String> = Vec::new();
    let mut k: usize = 0;
    while k < items.len()
        invariant
            k <= items@.len(),
            views(fixes@) == strings_of(items@.subrange(0, k as int)),
        decreases items@.len() - k,
    {
        let ghost before = fixes@;
        assert(items@.subrange(0, k + 1).drop_last() =~= items@.subrange(0, k as int));
        if let Json::Str(t) = &items[k] {
            fixes.push(t.clone());
            assert(views(fixes@) =~= views(before) + seq![t@]);
        } else {
            assert(fixes@ == before);
        }
        k = k + 1;
    }
    assert(items@.subrange(0, items@.len() as int) =~= items@);
    DaemonReply::Fixes(fixes)
}

} // verus!
