//! Reading a JSON document from bytes.
//!
//! The JSON syntax itself is `serde_json`'s business: the bytes are handed to
//! its parser, and the value it returns is taken apart one level at a time and
//! rebuilt as a [`Json`] tree. What the parser makes of given bytes is not
//! stated here; it is named, and everything downstream is stated over the
//! name.

use vstd::prelude::*;
use crate::json::{Json, JsonView, Member, MemberView};

verus! {

/// `serde_json::Value`, as a type that is carried about and never looked
/// into.
#[verifier::external_type_specification]
#[verifier::external_body]
pub struct ExValue(serde_json::Value);

/// `serde_json::Number`, as a type that is carried about and never looked
/// into.
#[verifier::external_type_specification]
#[verifier::external_body]
pub struct ExNumber(serde_json::Number);

/// `serde_json::Map`, as a type that is carried about and never looked into.
#[verifier::external_type_specification]
#[verifier::external_body]
#[verifier::reject_recursive_types(K)]
#[verifier::reject_recursive_types(V)]
pub struct ExMap<K, V>(serde_json::Map<K, V>);

/// `serde_json::Error`, as a type that is carried about and never looked
/// into.
#[verifier::external_type_specification]
#[verifier::external_body]
pub struct ExError(serde_json::Error);

/// The tree that a `serde_json::Value` holds.
pub uninterp spec fn value_tree(v: serde_json::Value) -> JsonView;

/// The text that the `Display` of a `serde_json::Number` writes.
pub uninterp spec fn number_text(n: serde_json::Number) -> Seq<char>;

/// The entries of a `serde_json::Map` from strings to values, in the order
/// in which `Map::iter` yields them.
pub uninterp spec fn map_entries(m: serde_json::Map<String, serde_json::Value>) -> Seq<
    (Seq<char>, serde_json::Value),
>;

/// What `serde_json::from_slice` makes of `bytes`: the tree of the value it
/// returns, or `None` where it returns an error.
pub uninterp spec fn document_tree(bytes: Seq<u8>) -> Option<JsonView>;

/// One level of a `serde_json::Value`: its variant, with what the variant
/// holds.
enum Layer<'a> {
    Null,
    Bool(bool),
    Number(&'a serde_json::Number),
    Text(&'a String),
    Array(&'a Vec<serde_json::Value>),
    Object(&'a serde_json::Map<String, serde_json::Value>),
}

/// The tree that a level stands for, given the trees of its children: a
/// number is the text it is displayed as, an array holds the trees of its
/// items in order, an object the entries of its map in the map's order.
spec fn layer_tree(layer: Layer<'_>) -> JsonView {
    match layer {
        Layer::Null => JsonView::Null,
        Layer::Bool(b) => JsonView::Bool(b),
        Layer::Number(n) => JsonView::Number(number_text(*n)),
        Layer::Text(text) => JsonView::Text(text@),
        Layer::Array(items) => JsonView::Array(
            items@.map_values(|c: serde_json::Value| value_tree(c)),
        ),
        Layer::Object(map) => JsonView::Object(
            map_entries(*map).map_values(
                |e: (Seq<char>, serde_json::Value)|
                    MemberView { name: e.0, value: value_tree(e.1) },
            ),
        ),
    }
}

/// Calls `serde_json::from_slice` for a `serde_json::Value`. The contract
/// claims only that the outcome is a function of the bytes: it equates the
/// tree of the returned value with the named result, and an error with its
/// absence.
#[verifier::external_body]
fn parse_value(bytes: &[u8]) -> (r: Result<serde_json::Value, serde_json::Error>)
    ensures
        match r {
            Ok(v) => document_tree(bytes@) == Some(value_tree(v)),
            Err(_) => document_tree(bytes@) is None,
        },
{
    serde_json::from_slice::<serde_json::Value>(bytes)
}

/// Tells the variants of the enum `serde_json::Value` apart and hands out
/// what the variant holds. The contract claims that the value's tree is
/// that of its variant.
#[verifier::external_body]
fn unfold<'a>(v: &'a serde_json::Value) -> (r: Layer<'a>)
    ensures
        layer_tree(r) == value_tree(*v),
{
    match v {
        serde_json::Value::Null => Layer::Null,
        serde_json::Value::Bool(b) => Layer::Bool(*b),
        serde_json::Value::Number(n) => Layer::Number(n),
        serde_json::Value::String(s) => Layer::Text(s),
        serde_json::Value::Array(items) => Layer::Array(items),
        serde_json::Value::Object(map) => Layer::Object(map),
    }
}

/// Calls `to_string` on a `serde_json::Number`, which writes it as its
/// `Display` does. The contract gives the text its name.
#[verifier::external_body]
fn display_number(n: &serde_json::Number) -> (r: String)
    ensures
        r@ == number_text(*n),
{
    n.to_string()
}

/// Calls `serde_json::Map::iter` and collects what it yields. The contract
/// gives the entries their name: as many, in the same order, each with the
/// characters of its key and with its value.
#[verifier::external_body]
fn list_entries<'a>(map: &'a serde_json::Map<String, serde_json::Value>) -> (r: Vec<
    (&'a String, &'a serde_json::Value),
>)
    ensures
        r@.len() == map_entries(*map).len(),
        forall|i: int|
            0 <= i < r@.len() ==> (#[trigger] r@[i]).0@ == map_entries(*map)[i].0 && *r@[i].1
                == map_entries(*map)[i].1,
{
    map.iter().collect()
}

/// Rebuilds a parsed value as a tree of the library's own.
fn lift(v: &serde_json::Value) -> (j: Json)
    ensures
        j@ == value_tree(*v),
    decreases value_tree(*v),
{
    match unfold(v) {
        Layer::Null => Json::Null,
        Layer::Bool(b) => Json::Bool(b),
        Layer::Number(n) => Json::Number(display_number(n)),
        Layer::Text(text) => Json::Text(text.clone()),
        Layer::Array(items) => {
            let mut out: Vec<Json> = Vec::new();
            let mut i: usize = 0;
            while i < items.len()
                invariant
                    i <= items.len(),
                    out@.len() == i,
                    value_tree(*v) == JsonView::Array(
                        items@.map_values(|c: serde_json::Value| value_tree(c)),
                    ),
                    forall|k: int| 0 <= k < i ==> (#[trigger] out@[k])@ == value_tree(items@[k]),
                decreases items.len() - i,
            {
                assert(value_tree(items@[i as int]) == value_tree(*v)->Array_0[i as int]);
                let child = lift(&items[i]);
                out.push(child);
                i += 1;
            }
            let r = Json::Array(out);
            assert(r@->Array_0 =~= value_tree(*v)->Array_0);
            r
        },
        Layer::Object(map) => {
            let entries = list_entries(map);
            let ghost named = map_entries(*map);
            let mut out: Vec<Member> = Vec::new();
            let mut i: usize = 0;
            while i < entries.len()
                invariant
                    i <= entries.len(),
                    out@.len() == i,
                    named == map_entries(*map),
                    entries@.len() == named.len(),
                    forall|k: int|
                        0 <= k < entries@.len() ==> (#[trigger] entries@[k]).0@ == named[k].0
                            && *entries@[k].1 == named[k].1,
                    value_tree(*v) == JsonView::Object(
                        named.map_values(
                            |e: (Seq<char>, serde_json::Value)|
                                MemberView { name: e.0, value: value_tree(e.1) },
                        ),
                    ),
                    forall|k: int|
                        0 <= k < i ==> (#[trigger] out@[k]).name@ == named[k].0 && out@[k].value@
                            == value_tree(named[k].1),
                decreases entries.len() - i,
            {
                assert(value_tree(named[i as int].1) == value_tree(*v)->Object_0[i as int].value);
                let value = lift(entries[i].1);
                out.push(Member { name: entries[i].0.clone(), value });
                i += 1;
            }
            let r = Json::Object(out);
            assert(r@->Object_0 =~= value_tree(*v)->Object_0);
            r
        },
    }
}

/// Parses `bytes` as one JSON document.
pub fn parse(bytes: &[u8]) -> (r: Option<Json>)
    ensures
        match r {
            Some(j) => document_tree(bytes@) == Some(j@),
            None => document_tree(bytes@) is None,
        },
{
    match parse_value(bytes) {
        Ok(v) => Some(lift(&v)),
        Err(_) => None,
    }
}

} // verus!
