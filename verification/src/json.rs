//! The JSON values and encoder of `serde_json`, as the library sees them.
//!
//! A `serde_json::Value` is opaque here: the library carries such values
//! through and hands them to `serde_json` for encoding.
use vstd::prelude::*;

verus! {

/// A JSON document of `serde_json`, carried through unread.
#[verifier::external_type_specification]
#[verifier::external_body]
pub struct ExJsonValue(serde_json::Value);

/// The error that `serde_json` reports when it cannot encode a value.
#[verifier::external_type_specification]
#[verifier::external_body]
pub struct ExJsonError(serde_json::Error);

/// `Clone` of `serde_json::Value`, which is derived there.
///
/// Claims: the copy equals the original.
pub assume_specification[ <serde_json::Value as Clone>::clone ](v: &serde_json::Value) -> (r: serde_json::Value)
    ensures
        r == *v,
;

/// The text that `serde_json::to_string` gives for a JSON value.
pub uninterp spec fn value_json_text(v: serde_json::Value) -> Seq<char>;

/// The hexadecimal digit `d` (lowercase), as `serde_json` writes it in `\u` escapes.
pub open spec fn hex_digit(d: int) -> char {
    seq!['0', '1', '2', '3', '4', '5', '6', '7', '8', '9', 'a', 'b', 'c', 'd', 'e', 'f'][d]
}

/// How a character stands inside a JSON string written by `serde_json`: a
/// quote and a backslash are escaped with a backslash; backspace, tab, line
/// feed, form feed and carriage return by their short escapes; the other
/// characters below U+0020 as `\u00` and two lowercase hex digits; every
/// other character as itself.
pub open spec fn json_escaped_char(c: char) -> Seq<char> {
    if c == '"' {
        seq!['\\', '"']
    } else if c == '\\' {
        seq!['\\', '\\']
    } else if c == '\u{8}' {
        seq!['\\', 'b']
    } else if c == '\t' {
        seq!['\\', 't']
    } else if c == '\n' {
        seq!['\\', 'n']
    } else if c == '\u{c}' {
        seq!['\\', 'f']
    } else if c == '\r' {
        seq!['\\', 'r']
    } else if (c as int) < 0x20 {
        seq!['\\', 'u', '0', '0', hex_digit((c as int) / 16), hex_digit((c as int) % 16)]
    } else {
        seq![c]
    }
}

/// The characters of `s`, each as it stands inside a JSON string.
pub open spec fn json_escaped(s: Seq<char>) -> Seq<char>
    decreases s.len(),
{
    if s.len() == 0 {
        Seq::empty()
    } else {
        json_escaped(s.drop_last()) + json_escaped_char(s.last())
    }
}

/// `s` as a JSON string: escaped, between double quotes.
pub open spec fn json_string_text(s: Seq<char>) -> Seq<char> {
    seq!['"'] + json_escaped(s) + seq!['"']
}

/// The JSON strings of `items`, separated by commas.
pub open spec fn json_string_list(items: Seq<Seq<char>>) -> Seq<char>
    decreases items.len(),
{
    if items.len() == 0 {
        Seq::empty()
    } else if items.len() == 1 {
        json_string_text(items[0])
    } else {
        json_string_list(items.drop_last()) + seq![','] + json_string_text(items.last())
    }
}

/// A JSON array of the strings `items`, as `serde_json` writes it: no spaces,
/// strings escaped as `json_escaped_char` says.
pub open spec fn json_array_text(items: Seq<Seq<char>>) -> Seq<char> {
    seq!['['] + json_string_list(items) + seq![']']
}

/// `a` comes before `b` in the order of Rust's `str`: lexicographic by
/// character code point (which is the order of their UTF-8 bytes).
pub open spec fn text_lt(a: Seq<char>, b: Seq<char>) -> bool
    decreases a.len(),
{
    if a.len() == 0 {
        b.len() > 0
    } else if b.len() == 0 {
        false
    } else if a[0] != b[0] {
        (a[0] as int) < (b[0] as int)
    } else {
        text_lt(a.drop_first(), b.drop_first())
    }
}

/// The map from key to text that results from adding the entries in order,
/// a later value replacing an earlier one under the same key.
pub open spec fn entries_map(entries: Seq<(Seq<char>, Seq<char>)>) -> Map<Seq<char>, Seq<char>>
    decreases entries.len(),
{
    if entries.len() == 0 {
        Map::empty()
    } else {
        entries_map(entries.drop_last()).insert(entries.last().0, entries.last().1)
    }
}

/// `keys` lists the keys of `m`, each once, in ascending order.
pub open spec fn is_key_order(keys: Seq<Seq<char>>, m: Map<Seq<char>, Seq<char>>) -> bool {
    &&& forall|i: int, j: int| 0 <= i < j < keys.len() ==> text_lt(#[trigger] keys[i], #[trigger] keys[j])
    &&& forall|i: int| 0 <= i < keys.len() ==> m.dom().contains(#[trigger] keys[i])
    &&& forall|k: Seq<char>| #[trigger] m.dom().contains(k) ==> keys.contains(k)
}

/// The keys of `m` in ascending order, as a `BTreeMap` visits them.
pub open spec fn key_order(m: Map<Seq<char>, Seq<char>>) -> Seq<Seq<char>> {
    choose|keys: Seq<Seq<char>>| is_key_order(keys, m)
}

/// The members `"key":"text"` of `m`, for the listed keys, separated by commas.
pub open spec fn json_member_list(keys: Seq<Seq<char>>, m: Map<Seq<char>, Seq<char>>) -> Seq<char>
    decreases keys.len(),
{
    if keys.len() == 0 {
        Seq::empty()
    } else {
        let member = json_string_text(keys.last()) + seq![':'] + json_string_text(m[keys.last()]);
        if keys.len() == 1 {
            member
        } else {
            json_member_list(keys.drop_last(), m) + seq![','] + member
        }
    }
}

/// A JSON object with string values, as `serde_json` writes a `Map` of them:
/// no spaces, members in ascending key order, keys and texts escaped as
/// `json_escaped_char` says.
pub open spec fn json_object_text(m: Map<Seq<char>, Seq<char>>) -> Seq<char> {
    seq!['{'] + json_member_list(key_order(m), m) + seq!['}']
}

/// Encodes a JSON value as text with `serde_json::to_string`.
///
/// Claims: encoding a `Value` always succeeds, and gives the text named by
/// `value_json_text`. In `serde_json`'s serializer the only failures are those
/// of the writer, which here is a `Vec<u8>` and never fails, and map keys that
/// are not strings, which a `Value` cannot hold (its object keys are `String`s,
/// and non-finite floats are written as `null`).
#[verifier::external_body]
pub(crate) fn value_to_string(value: &serde_json::Value) -> (r: Result<String, serde_json::Error>)
    ensures
        r is Ok,
        r->Ok_0@ == value_json_text(*value),
{
    serde_json::to_string(value)
}

/// Encodes an optional JSON value as text with `serde_json::to_string`.
///
/// Claims: encoding always succeeds, for the reason given at `value_to_string`;
/// `None` encodes as `null` (serde writes `None` with `serialize_none`, which
/// `serde_json` writes as `null`), and `Some(v)` as `v` alone does (serde writes
/// it with `serialize_some`, which `serde_json` hands straight to `v`).
#[verifier::external_body]
pub(crate) fn optional_value_to_string(
    value: &Option<serde_json::Value>,
) -> (r: Result<String, serde_json::Error>)
    ensures
        r is Ok,
        value is None ==> r->Ok_0@ == "null"@,
        value is Some ==> r->Ok_0@ == value_json_text(value->Some_0),
{
    serde_json::to_string(value)
}

/// Adds each key, with its text as a JSON string, to a new `serde_json::Map`
/// (`Map::extend`, which overwrites the value of a key already present), wraps
/// it as `Value::Object`, and encodes it with `serde_json::to_vec`.
///
/// Claims: encoding succeeds (the keys are strings and the writer is a
/// `Vec<u8>`; see `value_to_string`), and gives the UTF-8 bytes of
/// `json_object_text(entries_map(entries))`: the map is a `BTreeMap` (this
/// build has no `preserve_order`), whose entries are visited in ascending key
/// order, `str`'s order being lexicographic by bytes; `serde_json` writes `{`,
/// each member as key, `:`, value with `,` between members, and `}`, keys and
/// values as strings escaped as for arrays.
#[verifier::external_body]
pub(crate) fn object_of_strings_to_vec(
    entries: &Vec<(String, String)>,
) -> (r: Result<Vec<u8>, serde_json::Error>)
    ensures
        r is Ok,
        r->Ok_0@ == vstd::utf8::encode_utf8(json_object_text(entries_map(entries.deep_view()))),
{
    let mut map = serde_json::Map::new();
    map.extend(entries.iter().map(|(k, v)| (k.clone(), serde_json::Value::String(v.clone()))));
    serde_json::to_vec(&serde_json::Value::Object(map))
}

/// Wraps each text as a JSON string in a `Value::Array` and encodes it with
/// `serde_json::to_vec`.
///
/// Claims: encoding succeeds (see `value_to_string`), and gives the UTF-8 bytes
/// of `json_array_text(items)`: `serde_json` writes `[`, the strings separated
/// by `,`, and `]`, each string between quotes with the escapes of its
/// `ESCAPE` table (`ser.rs`), which only touch ASCII bytes below 0x20, `"`
/// and `\`.
#[verifier::external_body]
pub(crate) fn array_of_strings_to_vec(items: &Vec<String>) -> (r: Result<Vec<u8>, serde_json::Error>)
    ensures
        r is Ok,
        r->Ok_0@ == vstd::utf8::encode_utf8(json_array_text(items.deep_view())),
{
    let values: Vec<serde_json::Value> = items.iter().map(|s| serde_json::Value::String(s.clone())).collect();
    serde_json::to_vec(&serde_json::Value::Array(values))
}

} // verus!
