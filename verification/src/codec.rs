//! The JSON codec under measurement. Every call into it goes through a
//! trusted item here; the rest of the crate is verified against the
//! contracts these items state.
//!
//! The codec renders compactly, with an object's members in sorted key
//! order (its maps are tree-backed), numbers in plain decimal, and
//! strings escaping only the quote, the backslash and control
//! characters. The response contracts below spell the rendered text
//! out under those rules.

use crate::numfmt::dec_digits;
use vstd::prelude::*;

verus! {

#[verifier::external_type_specification]
#[verifier::external_body]
pub struct ExValue(serde_json::Value);

#[verifier::external_type_specification]
#[verifier::external_body]
pub struct ExJsonError(serde_json::Error);

/// Whether the codec's parser accepts the text `s`.
pub uninterp spec fn json_parses(s: Seq<char>) -> bool;

/// The codec's rendering of the top-level `id` member of the value
/// parsed from `s` (the rendering of null when the member is absent or
/// the value is not an object). Parsing and rendering are functions of
/// the text alone, so this is too; it only matters for texts the
/// parser accepts.
pub uninterp spec fn id_text_of(s: Seq<char>) -> Seq<char>;

/// Whether `s` passes through the codec's string rendering unchanged:
/// no quote, no backslash, no control character. Exactly those are
/// escaped; every other character is emitted as it stands.
pub open spec fn plain_text(s: Seq<char>) -> bool {
    forall|i: int| 0 <= i < s.len() ==> s[i] != '"' && s[i] != '\\' && 32 <= #[trigger] s[i] as u32
}

/// The rendering of an object member holding a number: quoted key,
/// colon, plain decimal. Assumes a `plain_text` key.
pub open spec fn number_member_text(key: Seq<char>, n: nat) -> Seq<char> {
    "\""@ + key + "\":"@ + dec_digits(n)
}

/// The rendering of an object member holding a string: quoted key,
/// colon, quoted value. Assumes a `plain_text` key and value.
pub open spec fn string_member_text(key: Seq<char>, val: Seq<char>) -> Seq<char> {
    "\""@ + key + "\":\""@ + val + "\""@
}

/// The rendered response that echoes the `id` member of the text
/// `sample`: the three members in the codec's sorted key order, with
/// the given rendered member under `result`.
pub open spec fn echo_response_text(sample: Seq<char>, member: Seq<char>) -> Seq<char> {
    "{\"id\":"@ + id_text_of(sample) + ",\"jsonrpc\":\"2.0\",\"result\":{"@ + member + "}}"@
}

/// The rendered response whose `id` is the given number: the three
/// members in the codec's sorted key order, with the given rendered
/// member under `result`.
pub open spec fn fresh_response_text(member: Seq<char>, id: nat) -> Seq<char> {
    "{\"id\":"@ + dec_digits(id) + ",\"jsonrpc\":\"2.0\",\"result\":{"@ + member + "}}"@
}

/// Relies on serde_json::from_str: whether a given text parses is a
/// function of that text alone.
#[verifier::external_body]
pub(crate) fn parse_json(s: &str) -> (r: Result<serde_json::Value, serde_json::Error>)
    ensures
        r is Ok <==> json_parses(s@),
{
    serde_json::from_str::<serde_json::Value>(s)
}

/// Relies on serde_json::from_str, `Value`'s `Index<&str>` (a static
/// null for an absent member), `Map::insert` (tree-backed, so members
/// render in sorted key order: id, jsonrpc, result), and
/// serde_json::to_string, whose rendering of a value tree has no
/// failure path, renders unsigned integers in plain decimal, and
/// leaves a `plain_text` key unescaped.
#[verifier::external_body]
pub(crate) fn echo_response_number(sample: &str, result_key: &str, n: u64) -> (r: Result<
    String,
    serde_json::Error,
>)
    requires
        plain_text(result_key@),
    ensures
        r is Ok <==> json_parses(sample@),
        r matches Ok(t) ==> t@ == "{\"id\":"@ + id_text_of(sample@)
            + ",\"jsonrpc\":\"2.0\",\"result\":{"@ + number_member_text(result_key@, n as nat)
            + "}}"@,
{
    let parsed = serde_json::from_str::<serde_json::Value>(sample)?;
    let mut inner = serde_json::Map::new();
    inner.insert(result_key.to_string(), serde_json::Value::from(n));
    let mut outer = serde_json::Map::new();
    outer.insert("jsonrpc".to_string(), serde_json::Value::from("2.0"));
    outer.insert("result".to_string(), serde_json::Value::Object(inner));
    outer.insert("id".to_string(), parsed["id"].clone());
    serde_json::to_string(&serde_json::Value::Object(outer))
}

/// Relies on the same functions as `echo_response_number`, with a
/// `plain_text` string under the result key instead of a number.
#[verifier::external_body]
pub(crate) fn echo_response_string(sample: &str, result_key: &str, val: &str) -> (r: Result<
    String,
    serde_json::Error,
>)
    requires
        plain_text(result_key@),
        plain_text(val@),
    ensures
        r is Ok <==> json_parses(sample@),
        r matches Ok(t) ==> t@ == "{\"id\":"@ + id_text_of(sample@)
            + ",\"jsonrpc\":\"2.0\",\"result\":{"@ + string_member_text(result_key@, val@)
            + "}}"@,
{
    let parsed = serde_json::from_str::<serde_json::Value>(sample)?;
    let mut inner = serde_json::Map::new();
    inner.insert(result_key.to_string(), serde_json::Value::from(val));
    let mut outer = serde_json::Map::new();
    outer.insert("jsonrpc".to_string(), serde_json::Value::from("2.0"));
    outer.insert("result".to_string(), serde_json::Value::Object(inner));
    outer.insert("id".to_string(), parsed["id"].clone());
    serde_json::to_string(&serde_json::Value::Object(outer))
}

/// Relies on `Map::insert` and serde_json::to_string as above; nothing
/// is parsed, the `id` member is the given number, and rendering a
/// value tree of strings and unsigned integers cannot fail.
#[verifier::external_body]
pub(crate) fn fresh_response_string(result_key: &str, val: &str, id: u64) -> (t: String)
    requires
        plain_text(result_key@),
        plain_text(val@),
    ensures
        t@ == fresh_response_text(string_member_text(result_key@, val@), id as nat),
{
    let mut inner = serde_json::Map::new();
    inner.insert(result_key.to_string(), serde_json::Value::from(val));
    let mut outer = serde_json::Map::new();
    outer.insert("jsonrpc".to_string(), serde_json::Value::from("2.0"));
    outer.insert("result".to_string(), serde_json::Value::Object(inner));
    outer.insert("id".to_string(), serde_json::Value::from(id));
    serde_json::to_string(&serde_json::Value::Object(outer)).expect("rendering a value tree has no failure path")
}

} // verus!
