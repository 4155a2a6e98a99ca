//! JSON text: reading it into [`Json`] values and writing it, with `serde_json` doing the
//! work on the text itself.

use serde::de::Unexpected;
use vstd::prelude::*;
use vstd::utf8::decode_utf8;
use vstd::utf8::valid_utf8;

use crate::json::entry_pairs;
use crate::json::fields_of;
use crate::json::item_trees;
use crate::json::lemma_fields_push;
use crate::json::ordered;
use crate::json::FloatText;
use crate::json::Json;
use crate::json::JsonObject;
use crate::json::JsonView;
use crate::json::Number;
use crate::json::NumberView;
use crate::text::quoted_text;
use crate::text::signed_digits;

verus! {

/// `serde_json::Value`, carried as an opaque value.
#[verifier::external_type_specification]
#[verifier::external_body]
pub struct ExValue(serde_json::Value);

/// `serde_json::Map`, carried as an opaque value.
#[verifier::external_type_specification]
#[verifier::external_body]
#[verifier::reject_recursive_types(K)]
#[verifier::reject_recursive_types(V)]
pub struct ExMap<K, V>(serde_json::Map<K, V>);

/// What a `serde_json::Value` holds.
pub uninterp spec fn value_tree(value: serde_json::Value) -> JsonView;

/// How many lists and objects stand inside one another in a `serde_json::Value`.
pub uninterp spec fn value_depth(value: serde_json::Value) -> nat;

/// What a `serde_json::Map` holds.
pub uninterp spec fn map_fields(
    map: serde_json::Map<String, serde_json::Value>,
) -> Map<Seq<char>, JsonView>;

/// What `serde_json::from_str` makes of a text: a JSON value, or the message of its error.
pub uninterp spec fn parsed(text: Seq<char>) -> Result<JsonView, Seq<char>>;

/// What `serde_json::to_vec` makes of a JSON value: its compact text in UTF-8.
pub uninterp spec fn rendered(tree: JsonView) -> Seq<u8>;

/// The words of `serde` for what a JSON value is.
pub open spec fn found_text(tree: JsonView) -> Seq<char> {
    match tree {
        JsonView::Null => "null"@,
        JsonView::Bool(true) => "boolean `true`"@,
        JsonView::Bool(false) => "boolean `false`"@,
        JsonView::Number(NumberView::Integer(n)) => "integer `"@ + signed_digits(n) + "`"@,
        JsonView::Number(NumberView::Float(text)) => "floating point `"@ + text + "`"@,
        JsonView::Text(text) => "string "@ + quoted_text(text),
        JsonView::List(_) => "sequence"@,
        JsonView::Object(_) => "map"@,
    }
}

/// What there is to say of a JSON value that stands where something else was `expected`.
pub open spec fn mismatch_text(tree: JsonView, expected: Seq<char>) -> Seq<char> {
    "invalid type: "@ + found_text(tree) + ", expected "@ + expected
}

/// Whether these are words for something that can be expected.
pub open spec fn is_expectation(expected: Seq<char>) -> bool {
    expected == "a string"@ || expected == "a boolean"@ || expected == "struct ErrorBody"@
}

/// The name that `serde_json` keeps for itself: an object with it as the first field is not read
/// as an object.
pub const RESERVED_NAME: &'static str = "$serde_json::private::RawValue";

/// Whether at most `limit` lists and objects stand inside one another in `tree`, and no object
/// in it has a field with the reserved name.
pub open spec fn readable_within(tree: JsonView, limit: nat) -> bool
    decreases limit,
{
    match tree {
        JsonView::List(items) => {
            &&& limit > 0
            &&& forall|i: int|
                0 <= i < items.len() ==> readable_within(#[trigger] items[i], (limit - 1) as nat)
        },
        JsonView::Object(fields) => {
            &&& limit > 0
            &&& !fields.contains_key(RESERVED_NAME@)
            &&& forall|key: Seq<char>|
                fields.contains_key(key) ==> readable_within(
                    #[trigger] fields[key],
                    (limit - 1) as nat,
                )
        },
        _ => true,
    }
}

/// How deeply nested a text `serde_json` still reads.
pub const MAX_NESTING: u8 = 127;

/// Whether no byte is an ASCII control character such as a line feed.
pub open spec fn no_controls(bytes: Seq<u8>) -> bool {
    forall|i: int| 0 <= i < bytes.len() ==> #[trigger] bytes[i] >= 32
}

/// Whether `text` is how `serde_json` writes the number that it reads from `text`, and that
/// number is no 64-bit integer.
pub open spec fn is_float_text(text: Seq<char>) -> bool {
    parsed(text) == Ok::<JsonView, Seq<char>>(JsonView::Number(NumberView::Float(text)))
}

/// A `serde_json::Value` taken apart by one level.
pub(crate) enum ValueParts {
    Null,
    Bool(bool),
    Unsigned(u64),
    Signed(i64),
    Float(String),
    Text(String),
    List(Vec<serde_json::Value>),
    Object(Vec<(String, serde_json::Value)>),
}

/// The material of a `serde_json::Value` that holds no floating point number at its top.
pub(crate) enum ValueSeed {
    Null,
    Bool(bool),
    Unsigned(u64),
    Signed(i64),
    Text(String),
    List(Vec<serde_json::Value>),
    Object(serde_json::Map<String, serde_json::Value>),
}

spec fn value_trees(values: Seq<serde_json::Value>) -> Seq<JsonView> {
    Seq::new(values.len(), |i: int| value_tree(values[i]))
}

spec fn value_pairs(entries: Seq<(String, serde_json::Value)>) -> Seq<(Seq<char>, JsonView)> {
    Seq::new(entries.len(), |i: int| (entries[i].0@, value_tree(entries[i].1)))
}

spec fn parts_tree(parts: ValueParts) -> JsonView {
    match parts {
        ValueParts::Null => JsonView::Null,
        ValueParts::Bool(b) => JsonView::Bool(b),
        ValueParts::Unsigned(n) => JsonView::Number(NumberView::Integer(n as int)),
        ValueParts::Signed(n) => JsonView::Number(NumberView::Integer(n as int)),
        ValueParts::Float(text) => JsonView::Number(NumberView::Float(text@)),
        ValueParts::Text(s) => JsonView::Text(s@),
        ValueParts::List(values) => JsonView::List(value_trees(values@)),
        ValueParts::Object(entries) => JsonView::Object(fields_of(value_pairs(entries@))),
    }
}

spec fn seed_tree(seed: ValueSeed) -> JsonView {
    match seed {
        ValueSeed::Null => JsonView::Null,
        ValueSeed::Bool(b) => JsonView::Bool(b),
        ValueSeed::Unsigned(n) => JsonView::Number(NumberView::Integer(n as int)),
        ValueSeed::Signed(n) => JsonView::Number(NumberView::Integer(n as int)),
        ValueSeed::Text(s) => JsonView::Text(s@),
        ValueSeed::List(values) => JsonView::List(value_trees(values@)),
        ValueSeed::Object(map) => JsonView::Object(map_fields(map)),
    }
}

/// Calls `serde_json::from_str` for a `serde_json::Value`.
///
/// Trusted: whether the text is JSON, what value it denotes and what the error says depend
/// on the characters of `text` alone; they are named [`parsed`].
#[verifier::external_body]
fn parse_value(text: &str) -> (res: Result<serde_json::Value, String>)
    ensures
        match res {
            Ok(value) => parsed(text@) == Ok::<JsonView, Seq<char>>(value_tree(value)),
            Err(message) => parsed(text@) == Err::<JsonView, Seq<char>>(message@),
        },
{
    serde_json::from_str::<serde_json::Value>(text).map_err(|err| err.to_string())
}

/// Takes a `serde_json::Value` apart by matching on its variants; a number is read through
/// `as_u64` and `as_i64` of `serde_json::Number`, else printed through its `Display`.
///
/// Trusted: the parts are what the value holds. The items of a list and the values of an
/// object are nested less deeply than the whole. The fields of an object come in the order of
/// their names, each name once (`serde_json` is built without its `preserve_order` feature, so
/// its `Map` is a `BTreeMap`, and strings are ordered by their characters).
/// A number that is no 64-bit integer prints as a text that reads back as the same number
/// (`serde_json` is built with its `float_roundtrip` feature).
#[verifier::external_body]
fn open_value(value: serde_json::Value) -> (res: ValueParts)
    ensures
        parts_tree(res) == value_tree(value),
        match res {
            ValueParts::List(values) => forall|i: int|
                0 <= i < values@.len() ==> value_depth(#[trigger] values@[i]) < value_depth(value),
            ValueParts::Object(entries) => {
                &&& ordered(value_pairs(entries@))
                &&& forall|i: int|
                    0 <= i < entries@.len() ==> value_depth((#[trigger] entries@[i]).1)
                        < value_depth(value)
            },
            ValueParts::Float(text) => is_float_text(text@),
            _ => true,
        },
{
    match value {
        serde_json::Value::Null => ValueParts::Null,
        serde_json::Value::Bool(b) => ValueParts::Bool(b),
        serde_json::Value::Number(n) => match (n.as_u64(), n.as_i64()) {
            (Some(unsigned), _) => ValueParts::Unsigned(unsigned),
            (None, Some(signed)) => ValueParts::Signed(signed),
            (None, None) => ValueParts::Float(n.to_string()),
        },
        serde_json::Value::String(s) => ValueParts::Text(s),
        serde_json::Value::Array(values) => ValueParts::List(values),
        serde_json::Value::Object(map) => ValueParts::Object(map.into_iter().collect()),
    }
}

/// Builds a `serde_json::Value` out of its material, integers through `Value::from`.
///
/// Trusted: the value holds what it was made of.
#[verifier::external_body]
fn close_value(seed: ValueSeed) -> (res: serde_json::Value)
    ensures
        value_tree(res) == seed_tree(seed),
{
    match seed {
        ValueSeed::Null => serde_json::Value::Null,
        ValueSeed::Bool(b) => serde_json::Value::Bool(b),
        ValueSeed::Unsigned(n) => serde_json::Value::from(n),
        ValueSeed::Signed(n) => serde_json::Value::from(n),
        ValueSeed::Text(s) => serde_json::Value::String(s),
        ValueSeed::List(values) => serde_json::Value::Array(values),
        ValueSeed::Object(map) => serde_json::Value::Object(map),
    }
}

/// Calls `serde_json::Map::new`.
///
/// Trusted: the new map holds nothing.
#[verifier::external_body]
fn new_map() -> (res: serde_json::Map<String, serde_json::Value>)
    ensures
        map_fields(res) == (Map::<Seq<char>, JsonView>::empty()),
{
    serde_json::Map::new()
}

/// Calls `serde_json::Map::insert` and drops the value that it replaced.
///
/// Trusted: afterwards the map holds `value` under `key`, and all else as before.
#[verifier::external_body]
fn insert_field(
    map: &mut serde_json::Map<String, serde_json::Value>,
    key: String,
    value: serde_json::Value,
)
    ensures
        map_fields(*final(map)) == map_fields(*old(map)).insert(key@, value_tree(value)),
{
    map.insert(key, value);
}

/// Calls `serde_json::to_vec` for a `serde_json::Value`.
///
/// Trusted: writing a value to memory succeeds, as no case of a value is refused. The bytes
/// depend on what the value holds alone, as the fields of an object are written in the order of
/// their names (`serde_json` is built without its `preserve_order` feature); they are named
/// [`rendered`]. They are UTF-8 and hold no control characters: the compact form puts none
/// between tokens, and inside strings they are escaped. The text reads back as the same value,
/// unless the value is nested more deeply than `serde_json` reads or an object in it has the
/// field name that `serde_json` reserves for raw values.
#[verifier::external_body]
fn render_value(value: &serde_json::Value) -> (res: Result<Vec<u8>, String>)
    ensures
        res is Ok,
        res matches Ok(bytes) ==> {
            &&& bytes@ == rendered(value_tree(*value))
            &&& valid_utf8(bytes@)
            &&& no_controls(bytes@)
            &&& readable_within(value_tree(*value), MAX_NESTING as nat) ==> parsed(
                decode_utf8(bytes@),
            ) == Ok::<JsonView, Seq<char>>(value_tree(*value))
        },
{
    serde_json::to_vec(value).map_err(|err| err.to_string())
}

/// Calls `serde::de::Error::invalid_type` of `serde_json::Error` for what the value is.
///
/// Trusted: the message says what the value is, a number by its text and a string as `{:?}`
/// prints it, and what was expected. (Where the words for what was expected end like the
/// position of a parse error, `serde_json` may write that position anew; the words asked for
/// here do not.)
#[verifier::external_body]
fn mismatch_message(value: &serde_json::Value, expected: &str) -> (res: String)
    requires
        is_expectation(expected@),
    ensures
        res@ == mismatch_text(value_tree(*value), expected@),
{
    let found = match value {
        serde_json::Value::Null => Unexpected::Unit,
        serde_json::Value::Bool(b) => Unexpected::Bool(*b),
        serde_json::Value::Number(n) => match (n.as_u64(), n.as_i64()) {
            (Some(unsigned), _) => Unexpected::Unsigned(unsigned),
            (None, Some(signed)) => Unexpected::Signed(signed),
            (None, None) => Unexpected::Float(n.as_f64().unwrap_or_default()),
        },
        serde_json::Value::String(s) => Unexpected::Str(s),
        serde_json::Value::Array(_) => Unexpected::Seq,
        serde_json::Value::Object(_) => Unexpected::Map,
    };
    <serde_json::Error as serde::de::Error>::invalid_type(found, &expected).to_string()
}

/// Reads a `serde_json::Value` into a [`Json`] value.
pub fn import_value(value: serde_json::Value) -> (res: Json)
    ensures
        res@ == value_tree(value),
    decreases value_depth(value),
{
    match open_value(value) {
        ValueParts::Null => Json::Null,
        ValueParts::Bool(b) => Json::Bool(b),
        ValueParts::Unsigned(n) => Json::Number(Number::Unsigned(n)),
        ValueParts::Signed(n) => Json::Number(Number::Signed(n)),
        ValueParts::Float(text) => Json::Number(Number::Float(FloatText::new(text))),
        ValueParts::Text(s) => Json::Text(s),
        ValueParts::List(values) => {
            let ghost all = values@;
            let mut items: Vec<Json> = Vec::new();
            for item in it: values
                invariant
                    it.seq() == all,
                    forall|i: int|
                        0 <= i < all.len() ==> value_depth(#[trigger] all[i]) < value_depth(value),
                    items@.len() == it.index(),
                    forall|i: int|
                        0 <= i < items@.len() ==> (#[trigger] items@[i])@ == value_tree(all[i]),
            {
                items.push(import_value(item));
            }
            assert(item_trees(items@) =~= value_trees(all));
            Json::list(items)
        },
        ValueParts::Object(pairs) => {
            let ghost all = pairs@;
            let mut entries: Vec<(String, Json)> = Vec::new();
            for pair in it: pairs
                invariant
                    it.seq() == all,
                    forall|i: int|
                        0 <= i < all.len() ==> value_depth((#[trigger] all[i]).1) < value_depth(
                            value,
                        ),
                    entries@.len() == it.index(),
                    forall|i: int|
                        0 <= i < entries@.len() ==> (#[trigger] entries@[i]).0@ == all[i].0@
                            && entries@[i].1@ == value_tree(all[i].1),
            {
                let (name, inner) = pair;
                entries.push((name, import_value(inner)));
            }
            assert(entry_pairs(entries@) =~= value_pairs(all));
            Json::Object(JsonObject::from_entries(entries))
        },
    }
}

/// Writes a [`Json`] value as a `serde_json::Value`.
pub fn export_value(json: &Json) -> (res: serde_json::Value)
    ensures
        value_tree(res) == json@,
    decreases json,
{
    match json {
        Json::Null => close_value(ValueSeed::Null),
        Json::Bool(b) => close_value(ValueSeed::Bool(*b)),
        Json::Number(Number::Unsigned(n)) => close_value(ValueSeed::Unsigned(*n)),
        Json::Number(Number::Signed(n)) => close_value(ValueSeed::Signed(*n)),
        Json::Number(Number::Float(number)) => {
            match parse_value(number.as_str()) {
                Ok(value) => value,
                Err(_) => close_value(ValueSeed::Null),
            }
        },
        Json::Text(s) => close_value(ValueSeed::Text(s.clone())),
        Json::List(items) => {
            let mut values: Vec<serde_json::Value> = Vec::new();
            let mut i: usize = 0;
            while i < items.len()
                invariant
                    json matches Json::List(list) && list == items,
                    i <= items.len(),
                    values@.len() == i,
                    forall|j: int|
                        0 <= j < i ==> value_tree(#[trigger] values@[j]) == items@[j]@,
                decreases items.len() - i,
            {
                values.push(export_value(&items[i]));
                i = i + 1;
            }
            assert(value_trees(values@) =~= item_trees(items@));
            proof {
                Json::lemma_list_tree(*items);
            }
            close_value(ValueSeed::List(values))
        },
        Json::Object(object) => {
            let mut map = new_map();
            let mut i: usize = 0;
            assert(object.pairs().take(0) =~= Seq::empty());
            while i < object.len()
                invariant
                    json matches Json::Object(inner) && inner == object,
                    i <= object.pairs().len(),
                    map_fields(map) == fields_of(object.pairs().take(i as int)),
                decreases object.pairs().len() - i,
            {
                let value = export_value(object.value_at(i));
                let name = object.name_at(i).clone();
                proof {
                    let pair = object.pairs()[i as int];
                    lemma_fields_push(object.pairs().take(i as int), pair.0, pair.1);
                    assert(object.pairs().take(i as int).push(pair) =~= object.pairs().take(i + 1));
                }
                insert_field(&mut map, name, value);
                i = i + 1;
            }
            assert(object.pairs().take(i as int) =~= object.pairs());
            assert(object.fields() == fields_of(object.pairs()));
            close_value(ValueSeed::Object(map))
        },
    }
}

/// Reads a JSON text.
pub fn parse_json(text: &str) -> (res: Result<Json, String>)
    ensures
        match res {
            Ok(json) => parsed(text@) == Ok::<JsonView, Seq<char>>(json@),
            Err(message) => parsed(text@) == Err::<JsonView, Seq<char>>(message@),
        },
{
    match parse_value(text) {
        Ok(value) => Ok(import_value(value)),
        Err(message) => Err(message),
    }
}

/// Writes a JSON value as compact text in UTF-8, on one line. It always succeeds.
pub fn render_json(json: &Json) -> (res: Result<Vec<u8>, String>)
    ensures
        res is Ok,
        res matches Ok(bytes) ==> {
            &&& bytes@ == rendered(json@)
            &&& valid_utf8(bytes@)
            &&& no_controls(bytes@)
            &&& readable_within(json@, MAX_NESTING as nat) ==> parsed(decode_utf8(bytes@)) == Ok::<
                JsonView,
                Seq<char>,
            >(json@)
        },
{
    let value = export_value(json);
    render_value(&value)
}

/// What there is to say of a JSON value that stands where something else was `expected`.
pub fn mismatch(json: &Json, expected: &str) -> (res: String)
    requires
        is_expectation(expected@),
    ensures
        res@ == mismatch_text(json@, expected@),
{
    let value = export_value(json);
    mismatch_message(&value, expected)
}

} // verus!
