//! Reading JSON text. The text is parsed by `serde_json`; what it returns is
//! copied, level by level, into a [`Json`] document of this crate.

use crate::json::{lemma_items_view, lemma_members_view, Json, JsonView};
use vstd::prelude::*;

verus! {

/// `serde_json::Value`: a parsed JSON value, opaque here. What it holds is
/// told by `value_view`.
#[verifier::external_type_specification]
#[verifier::external_body]
pub struct ExValue(serde_json::Value);

/// `serde_json::Error`: why a text could not be parsed, opaque here.
#[verifier::external_type_specification]
#[verifier::external_body]
pub struct ExError(serde_json::Error);

/// `serde_json::Number`: a JSON number, opaque here.
#[verifier::external_type_specification]
#[verifier::external_body]
pub struct ExNumber(serde_json::Number);

/// `serde_json::Map`: the members of a JSON object, opaque here. What it
/// holds is told by `map_view`.
#[verifier::external_type_specification]
#[verifier::external_body]
#[verifier::reject_recursive_types(K)]
#[verifier::reject_recursive_types(V)]
pub struct ExMap<K, V>(serde_json::Map<K, V>);

/// The document that `serde_json::from_str` reads from a text, or `None`
/// where it reports an error.
pub uninterp spec fn parsed(text: Seq<char>) -> Option<JsonView>;

/// The document that a `serde_json::Value` holds.
pub uninterp spec fn value_view(value: serde_json::Value) -> JsonView;

/// What `serde_json::Number::as_u64` returns for a number: the number
/// itself where it is a whole number between 0 and 2^64 - 1.
pub uninterp spec fn number_view(number: serde_json::Number) -> Option<u64>;

/// The members that a `serde_json::Map` holds, in the order in which
/// `serde_json::Map::iter` walks them.
pub uninterp spec fn map_view(map: serde_json::Map<String, serde_json::Value>) -> Seq<
    (Seq<char>, JsonView),
>;

/// The top level of a `serde_json::Value`, with what is below it unread.
enum Opened<'a> {
    Null,
    Bool(bool),
    Number(&'a serde_json::Number),
    Text(&'a String),
    Items(&'a Vec<serde_json::Value>),
    Members(&'a serde_json::Map<String, serde_json::Value>),
}

/// The document of an opened value, given what is below it.
spec fn opened_view(opened: Opened) -> JsonView {
    match opened {
        Opened::Null => JsonView::Null,
        Opened::Bool(b) => JsonView::Bool(b),
        Opened::Number(number) => match number_view(*number) {
            Some(n) => JsonView::Unsigned(n),
            None => JsonView::OtherNumber,
        },
        Opened::Text(s) => JsonView::Str(s@),
        Opened::Items(items) => JsonView::Array(
            Seq::new(items.len() as nat, |i: int| value_view(items[i])),
        ),
        Opened::Members(map) => JsonView::Object(map_view(*map)),
    }
}

/// Calls `serde_json::from_str` for a `serde_json::Value`. The contract names
/// the outcome: the value holds the document `parsed` of the text, and an
/// error is returned exactly where `parsed` is `None`.
#[verifier::external_body]
fn parse_value(text: &str) -> (r: Result<serde_json::Value, serde_json::Error>)
    ensures
        (match r {
            Ok(value) => parsed(text@) == Some(value_view(value)),
            Err(_) => parsed(text@) is None,
        }),
{
    serde_json::from_str::<serde_json::Value>(text)
}

/// Tells the variants of a `serde_json::Value` apart and hands out what the
/// variant holds. The contract says that the document of the value is made
/// of what was handed out.
#[verifier::external_body]
fn open_value<'a>(value: &'a serde_json::Value) -> (opened: Opened<'a>)
    ensures
        opened_view(opened) == value_view(*value),
{
    match value {
        serde_json::Value::Null => Opened::Null,
        serde_json::Value::Bool(b) => Opened::Bool(*b),
        serde_json::Value::Number(number) => Opened::Number(number),
        serde_json::Value::String(s) => Opened::Text(s),
        serde_json::Value::Array(items) => Opened::Items(items),
        serde_json::Value::Object(map) => Opened::Members(map),
    }
}

/// Calls `serde_json::Number::as_u64`, which returns the number where it is
/// a whole number that fits 64 bits without a sign, and `None` for every
/// other number.
#[verifier::external_body]
fn number_as_u64(number: &serde_json::Number) -> (r: Option<u64>)
    ensures
        r == number_view(*number),
{
    number.as_u64()
}

/// Calls `serde_json::Map::iter` and collects what it yields: each member
/// once, as its name and its value.
#[verifier::external_body]
fn map_members<'a>(map: &'a serde_json::Map<String, serde_json::Value>) -> (members: Vec<
    (&'a String, &'a serde_json::Value),
>)
    ensures
        members.len() == map_view(*map).len(),
        forall|i: int|
            0 <= i < members.len() ==> (#[trigger] members[i].0@, value_view(*members[i].1))
                == map_view(*map)[i],
{
    map.iter().collect()
}

/// Copies a `serde_json::Value` into a document of this crate.
fn lift(value: &serde_json::Value) -> (json: Json)
    ensures
        json@ == value_view(*value),
    decreases value_view(*value),
{
    match open_value(value) {
        Opened::Null => Json::Null,
        Opened::Bool(b) => Json::Bool(b),
        Opened::Number(number) => match number_as_u64(number) {
            Some(n) => Json::Unsigned(n),
            None => Json::OtherNumber,
        },
        Opened::Text(s) => Json::Str(s.clone()),
        Opened::Items(items) => {
            let ghost children = Seq::new(items.len() as nat, |k: int| value_view(items[k]));
            let mut out: Vec<Json> = Vec::new();
            let mut i: usize = 0;
            while i < items.len()
                invariant
                    i <= items.len(),
                    out.len() == i,
                    children.len() == items.len(),
                    forall|k: int| 0 <= k < items.len() ==> children[k] == value_view(items[k]),
                    value_view(*value) == JsonView::Array(children),
                    forall|k: int| 0 <= k < i ==> out[k]@ == children[k],
                decreases items.len() - i,
            {
                proof {
                    assert(decreases_to!(value_view(*value) => value_view(*value)->Array_0));
                    assert(decreases_to!(children => children[i as int]));
                }
                let child = lift(&items[i]);
                out.push(child);
                i += 1;
            }
            let json = Json::Array(out);
            proof {
                lemma_items_view(out@);
                assert(json@->Array_0 =~= children);
            }
            json
        },
        Opened::Members(map) => {
            let members = map_members(map);
            let ghost children = map_view(*map);
            let mut out: Vec<(String, Json)> = Vec::new();
            let mut i: usize = 0;
            while i < members.len()
                invariant
                    i <= members.len(),
                    out.len() == i,
                    children.len() == members.len(),
                    forall|k: int|
                        0 <= k < members.len() ==> (
                            #[trigger] members[k].0@,
                            value_view(*members[k].1),
                        ) == children[k],
                    value_view(*value) == JsonView::Object(children),
                    forall|k: int| 0 <= k < i ==> (out[k].0@, out[k].1@) == children[k],
                decreases members.len() - i,
            {
                proof {
                    assert((members[i as int].0@, value_view(*members[i as int].1))
                        == children[i as int]);
                    assert(decreases_to!(value_view(*value) => value_view(*value)->Object_0));
                    assert(decreases_to!(children[i as int] => children[i as int].1));
                }
                let name = members[i].0.clone();
                let child = lift(members[i].1);
                out.push((name, child));
                i += 1;
            }
            let json = Json::Object(out);
            proof {
                lemma_members_view(out@);
                assert(json@->Object_0 =~= children);
            }
            json
        },
    }
}

/// Reads a JSON text.
///
/// Returns the document that the text holds, or `None` where the text is not
/// one JSON document.
pub fn parse_json(text: &str) -> (r: Option<Json>)
    ensures
        (match r {
            Some(json) => parsed(text@) == Some(json@),
            None => parsed(text@) is None,
        }),
{
    match parse_value(text) {
        Ok(value) => Some(lift(&value)),
        Err(_) => None,
    }
}

} // verus!
