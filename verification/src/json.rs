//! What the bridge and the discovery service answer, read with `serde_json`.
//!
//! A parsed value is known here by its compact text, which is what it prints
//! as. Two values with the same compact text are the same value, so what
//! `serde_json` finds in a value is a function of that text. The functions of
//! `serde_json` stand behind wrappers whose contracts are believed, not
//! proved; what they return is named, not computed, by the specification
//! functions without a body, but for the text of a JSON string, which is
//! stated.

use crate::hue::HueError;
use crate::text::{decimal, decimal_text, digit_char, replace_all, replaced};
use vstd::prelude::*;

verus! {

/// `serde_json::Value`, a parsed JSON value, which is opaque here.
#[verifier::external_type_specification]
#[verifier::external_body]
pub struct ExValue(serde_json::Value);

/// `serde_json::Error`, which is opaque here.
#[verifier::external_type_specification]
#[verifier::external_body]
pub struct ExError(serde_json::Error);

/// The compact JSON text of a value: what `Display` writes for it.
pub uninterp spec fn json_text(v: serde_json::Value) -> Seq<char>;

/// The compact text of the value that `text` parses to; none where
/// `serde_json::from_str` refuses `text`.
pub uninterp spec fn parsed_text(text: Seq<char>) -> Option<Seq<char>>;

/// The compact text of the member `key` of the value with compact text
/// `text`.
pub uninterp spec fn member_text(text: Seq<char>, key: Seq<char>) -> Seq<char>;

/// The compact text of the element `index` of the value with compact text
/// `text`.
pub uninterp spec fn element_text(text: Seq<char>, index: int) -> Seq<char>;

/// A compact text is that of an object exactly when it opens with a brace.
pub open spec fn is_object_text(text: Seq<char>) -> bool {
    text.len() > 0 && text[0] == '{'
}

/// `serde_json::from_str` for a `Value`: the result depends on the text
/// alone, and is named by [`parsed_text`].
#[verifier::external_body]
fn parse_value(text: &str) -> (r: Result<serde_json::Value, serde_json::Error>)
    ensures
        r is Ok ==> parsed_text(text@) == Some(json_text(r->Ok_0)),
        r is Err ==> parsed_text(text@) is None,
{
    serde_json::from_str::<serde_json::Value>(text)
}

/// Indexing a `Value` by a string: the member of an object with that key, and
/// `null` where there is none. Named by [`member_text`].
#[verifier::external_body]
fn value_member<'a>(v: &'a serde_json::Value, key: &str) -> (m: &'a serde_json::Value)
    ensures
        json_text(*m) == member_text(json_text(*v), key@),
{
    &v[key]
}

/// Indexing a `Value` by a number: the element of an array at that place, and
/// `null` where there is none. Named by [`element_text`].
#[verifier::external_body]
fn value_element(v: &serde_json::Value, index: usize) -> (m: &serde_json::Value)
    ensures
        json_text(*m) == element_text(json_text(*v), index as int),
{
    &v[index]
}

/// `Value::is_object`: whether the value is an object, which is written in
/// braces and is the only value that is.
#[verifier::external_body]
fn value_is_object(v: &serde_json::Value) -> (r: bool)
    ensures
        r == is_object_text(json_text(*v)),
{
    v.is_object()
}

/// `Display` for a `Value`: its compact text.
#[verifier::external_body]
fn value_text(v: &serde_json::Value) -> (s: String)
    ensures
        s@ == json_text(*v),
{
    v.to_string()
}

/// `Display` for an `Error`: what went wrong, in words.
#[verifier::external_body]
fn error_text(e: &serde_json::Error) -> String {
    e.to_string()
}

/// The hexadecimal digit of a number from 0 to 15, in lower case.
pub open spec fn hex_digit(d: int) -> char {
    if d < 10 {
        digit_char(d)
    } else if d == 10 {
        'a'
    } else if d == 11 {
        'b'
    } else if d == 12 {
        'c'
    } else if d == 13 {
        'd'
    } else if d == 14 {
        'e'
    } else {
        'f'
    }
}

/// A character as it stands inside a JSON string: the double quote and the
/// backslash behind a backslash, the control characters below U+0020 as
/// `\b`, `\t`, `\n`, `\f`, `\r` or `\u00` and two hexadecimal digits, and every
/// other character as it is.
pub open spec fn escaped_char(c: char) -> Seq<char> {
    if c == '"' {
        seq!['\\', '"']
    } else if c == '\\' {
        seq!['\\', '\\']
    } else if c == '\u{8}' {
        seq!['\\', 'b']
    } else if c == '\t' {
        seq!['\\', 't']
    } else if c == '\n' {
        seq!['\\', 'n']
    } else if c == '\u{c}' {
        seq!['\\', 'f']
    } else if c == '\r' {
        seq!['\\', 'r']
    } else if (c as int) < 0x20 {
        seq!['\\', 'u', '0', '0', hex_digit((c as int) / 16), hex_digit((c as int) % 16)]
    } else {
        seq![c]
    }
}

/// A text as it stands inside a JSON string.
pub open spec fn escaped(text: Seq<char>) -> Seq<char>
    decreases text.len(),
{
    if text.len() == 0 {
        Seq::empty()
    } else {
        escaped(text.drop_last()) + escaped_char(text.last())
    }
}

/// The compact text of the JSON string that holds `text`: `text` in double
/// quotes, with what needs it escaped.
pub open spec fn quoted_text(text: Seq<char>) -> Seq<char> {
    seq!['"'] + escaped(text) + seq!['"']
}

/// `Value::from` for a string slice: the JSON string that holds it. Its
/// compact text is the slice in double quotes, escaped as the serializer of
/// `serde_json` escapes: [`quoted_text`].
#[verifier::external_body]
fn string_value(text: &str) -> (v: serde_json::Value)
    ensures
        json_text(v) == quoted_text(text@),
{
    serde_json::Value::from(text)
}

/// Writes a text as a JSON string.
pub fn quote(text: &str) -> (s: String)
    ensures
        s@ == quoted_text(text@),
{
    let v = string_value(text);
    value_text(&v)
}

/// The address of the first bridge in the answer of the discovery service,
/// given the compact text of the answer: the member `internalipaddress` of
/// its first element, without the quotes.
pub open spec fn discovered_ip(root: Seq<char>) -> Seq<char> {
    replaced(member_text(element_text(root, 0), "internalipaddress"@), "\""@, ""@)
}

/// Reads the address of the first bridge out of a parsed answer of the
/// discovery service.
pub fn ip_of(root: &serde_json::Value) -> (ip: String)
    ensures
        ip@ == discovered_ip(json_text(*root)),
{
    let text = value_text(value_member(value_element(root, 0), "internalipaddress"));
    replace_all(text.as_str(), "\"", "")
}

/// Reads the address of the first bridge out of the answer of the discovery
/// service. The answer has to be JSON; where it has no such member, the
/// address is `null`.
pub fn get_hue_ip(body: &str) -> (r: Result<String, HueError>)
    ensures
        parsed_text(body@) is None ==> r matches Err(HueError::InvalidJson(_)),
        parsed_text(body@) is Some ==> (r matches Ok(ip) && ip@ == discovered_ip(
            parsed_text(body@)->Some_0,
        )),
{
    match parse_value(body) {
        Ok(root) => Ok(ip_of(&root)),
        Err(e) => Err(HueError::InvalidJson(error_text(&e))),
    }
}

/// A light as the bridge describes it: its index, and its JSON text in which
/// `type` has become `light_type`.
#[derive(Debug, Clone, PartialEq, Eq)]
pub struct LightRecord {
    pub index: String,
    pub json: String,
}

/// The compact text of what the bridge holds under the index `i`.
pub open spec fn light_text(root: Seq<char>, i: nat) -> Seq<char> {
    member_text(root, decimal(i))
}

/// `record` describes the light with index `i`.
pub open spec fn is_light_record(root: Seq<char>, record: LightRecord, i: nat) -> bool {
    &&& record.index@ == decimal(i)
    &&& record.json@ == replaced(light_text(root, i), "type"@, "light_type"@)
}

/// `records` describes the lights of the bridge: those with the indices 1,
/// 2, 3 and so on, up to the first index under which the bridge holds no
/// object.
pub open spec fn are_light_records(root: Seq<char>, records: Seq<LightRecord>) -> bool {
    &&& forall|k: int|
        0 <= k < records.len() ==> is_object_text(#[trigger] light_text(root, (k + 1) as nat))
    &&& forall|k: int|
        0 <= k < records.len() ==> is_light_record(root, #[trigger] records[k], (k + 1) as nat)
    &&& records.len() + 1 < u64::MAX ==> !is_object_text(
        light_text(root, (records.len() + 1) as nat),
    )
}

/// Reads the lights out of a parsed answer of the bridge.
pub fn records_of(root: &serde_json::Value) -> (records: Vec<LightRecord>)
    ensures
        are_light_records(json_text(*root), records@),
{
    let mut records: Vec<LightRecord> = Vec::new();
    let mut index: u64 = 1;
    let mut more = true;
    while more && index < u64::MAX
        invariant
            1 <= index <= u64::MAX,
            records@.len() == index - 1,
            forall|k: int|
                0 <= k < records@.len() ==> is_object_text(
                    #[trigger] light_text(json_text(*root), (k + 1) as nat),
                ),
            forall|k: int|
                0 <= k < records@.len() ==> is_light_record(
                    json_text(*root),
                    #[trigger] records@[k],
                    (k + 1) as nat,
                ),
            !more ==> !is_object_text(light_text(json_text(*root), index as nat)),
        decreases u64::MAX - index + (if more { 1int } else { 0int }),
    {
        let key = decimal_text(index);
        let member = value_member(root, key.as_str());
        if value_is_object(member) {
            let text = value_text(member);
            let json = replace_all(text.as_str(), "type", "light_type");
            records.push(LightRecord { index: key, json });
            index += 1;
        } else {
            more = false;
        }
    }
    records
}

/// Reads the lights out of the answer of the bridge, which has to be JSON.
pub fn light_records(body: &str) -> (r: Result<Vec<LightRecord>, HueError>)
    ensures
        parsed_text(body@) is None ==> r matches Err(HueError::InvalidJson(_)),
        parsed_text(body@) is Some ==> (r matches Ok(records) && are_light_records(
            parsed_text(body@)->Some_0,
            records@,
        )),
{
    match parse_value(body) {
        Ok(root) => Ok(records_of(&root)),
        Err(e) => Err(HueError::InvalidJson(error_text(&e))),
    }
}

} // verus!
