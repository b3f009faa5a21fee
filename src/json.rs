//! A JSON tree of the library's own, and the bridge to serde_json's parser
//! and printer.
use vstd::prelude::*;
use vstd::string::*;

verus! {

#[verifier::external_type_specification]
#[verifier::external_body]
pub struct ExValue(serde_json::Value);

/// One JSON value. A number keeps its text; an object keeps its members in
/// the order given.
#[derive(Debug)]
pub enum JsonValue {
    Null,
    Bool(bool),
    Number(String),
    Str(String),
    Array(Vec<JsonValue>),
    Object(Vec<(String, JsonValue)>),
}

/// What serde_json parses out of a text; `None` where it refuses the text.
pub uninterp spec fn json_of_text(text: Seq<char>) -> Option<JsonValue>;

/// What serde_json parses out of a byte string; `None` where it refuses it.
pub uninterp spec fn json_of_bytes(bytes: Seq<u8>) -> Option<JsonValue>;

/// The compact text that serde_json prints for a tree.
pub uninterp spec fn text_of_json(j: JsonValue) -> Seq<char>;

/// Carries a serde_json tree over into the library's tree, node for node; a
/// number keeps the text that serde_json prints for it. Used by the parsing
/// wrappers below.
#[verifier::external_body]
fn tree_from_serde(v: serde_json::Value) -> JsonValue {
    match v {
        serde_json::Value::Null => JsonValue::Null,
        serde_json::Value::Bool(b) => JsonValue::Bool(b),
        serde_json::Value::Number(n) => JsonValue::Number(n.to_string()),
        serde_json::Value::String(s) => JsonValue::Str(s),
        serde_json::Value::Array(a) => JsonValue::Array(a.into_iter().map(tree_from_serde).collect()),
        serde_json::Value::Object(o) => JsonValue::Object(
            o.into_iter().map(|(k, x)| (k, tree_from_serde(x))).collect(),
        ),
    }
}

/// Carries the library's tree over into a serde_json tree, node for node; a
/// number text that serde_json does not read becomes `null`. Used by the
/// printing wrapper below.
#[verifier::external_body]
fn tree_to_serde(j: &JsonValue) -> serde_json::Value {
    match j {
        JsonValue::Null => serde_json::Value::Null,
        JsonValue::Bool(b) => serde_json::Value::Bool(*b),
        JsonValue::Number(t) => t.parse::<serde_json::Number>().map(serde_json::Value::Number).unwrap_or(serde_json::Value::Null),
        JsonValue::Str(s) => serde_json::Value::String(s.clone()),
        JsonValue::Array(a) => serde_json::Value::Array(a.iter().map(tree_to_serde).collect()),
        JsonValue::Object(o) => serde_json::Value::Object(
            o.iter().map(|(k, x)| (k.clone(), tree_to_serde(x))).collect(),
        ),
    }
}

/// Relies on serde_json::from_str into serde_json::Value: the outcome depends
/// on the text alone.
#[verifier::external_body]
pub(crate) fn parse_text(text: &str) -> (r: Option<JsonValue>)
    ensures
        r == json_of_text(text@),
{
    serde_json::from_str::<serde_json::Value>(text).ok().map(tree_from_serde)
}

/// Relies on serde_json::from_slice into serde_json::Value: the outcome
/// depends on the bytes alone.
#[verifier::external_body]
pub(crate) fn parse_bytes(bytes: &[u8]) -> (r: Option<JsonValue>)
    ensures
        r == json_of_bytes(bytes@),
{
    serde_json::from_slice::<serde_json::Value>(bytes).ok().map(tree_from_serde)
}

/// Relies on serde_json's `Display` for serde_json::Value: the compact text
/// of the tree, which depends on the tree alone.
#[verifier::external_body]
pub(crate) fn print_json(j: &JsonValue) -> (r: String)
    ensures
        r@ == text_of_json(*j),
{
    tree_to_serde(j).to_string()
}

/// The value of the first member of `entries` named `key`.
pub open spec fn member(entries: Seq<(String, JsonValue)>, key: Seq<char>) -> Option<JsonValue>
    decreases entries.len(),
{
    if entries.len() == 0 {
        None
    } else if entries[0].0@ == key {
        Some(entries[0].1)
    } else {
        member(entries.drop_first(), key)
    }
}

/// The member `key` of an object; `None` for any other value.
pub open spec fn field(j: JsonValue, key: Seq<char>) -> Option<JsonValue> {
    match j {
        JsonValue::Object(entries) => member(entries@, key),
        _ => None,
    }
}

/// `r` refers to the value that `v` holds, and is `None` where `v` is.
pub open spec fn same_ref<T>(r: Option<&T>, v: Option<T>) -> bool {
    match r {
        Some(x) => v == Some(*x),
        None => v is None,
    }
}

/// Looks up the member `key` of an object.
pub fn get_field<'a>(j: &'a JsonValue, key: &str) -> (r: Option<&'a JsonValue>)
    ensures
        same_ref(r, field(*j, key@)),
{
    match j {
        JsonValue::Object(entries) => {
            let k = String::from_str(key);
            let n = entries.len();
            let mut i: usize = 0;
            assert(entries@.subrange(0, n as int) =~= entries@);
            while i < n
                invariant
                    n == entries@.len(),
                    i <= n,
                    k@ == key@,
                    field(*j, key@) == member(entries@, key@),
                    member(entries@, key@) == member(entries@.subrange(i as int, n as int), key@),
                decreases n - i,
            {
                assert(entries@.subrange(i as int, n as int).drop_first()
                    =~= entries@.subrange(i + 1, n as int));
                assert(entries@.subrange(i as int, n as int)[0] == entries@[i as int]);
                if entries[i].0 == k {
                    return Some(&entries[i].1);
                }
                i = i + 1;
            }
            None
        },
        _ => None,
    }
}

} // verus!
