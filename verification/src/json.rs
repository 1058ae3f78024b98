//! The JSON data model that the wire grammar is stated over.
//!
//! A document is held as a tree of [`Json`] values. A number is held as
//! decimal text, and an object as the list of its members in the order in
//! which the tree was built. A tree that was parsed from bytes holds what the
//! parser kept: each number as the text it writes for the integer or 64-bit
//! float it read (`1e2` is held as `100.0`), and the members of an object in
//! ascending order of their names, each name once, with the value that the
//! bytes gave it last.

use vstd::prelude::*;
use crate::text::{is_number, is_number_text};

verus! {

/// A number, held as decimal text: `100`, `0.5`, `-3`, `1e-7`. The text is
/// that of a JSON number wherever the number was decoded; it is the text
/// that the parser wrote for the number it read, which for a number with a
/// fraction or an exponent is the shortest text of the nearest 64-bit float.
#[derive(Clone, Debug, PartialEq, Eq)]
pub struct Decimal {
    pub text: String,
}

impl View for Decimal {
    type V = Seq<char>;

    open spec fn view(&self) -> Seq<char> {
        self.text@
    }
}

impl Decimal {
    /// The number written `text`, or `None` where `text` is not the text of
    /// a JSON number.
    pub fn new(text: &str) -> (r: Option<Decimal>)
        ensures
            match r {
                Some(d) => d@ == text@ && is_number_text(text@),
                None => !is_number_text(text@),
            },
    {
        if is_number(text) {
            Some(Decimal { text: String::from_str(text) })
        } else {
            None
        }
    }

    /// The number's decimal text.
    pub fn as_str(&self) -> (r: &str)
        ensures
            r@ == self@,
    {
        self.text.as_str()
    }
}

/// One JSON value.
#[derive(Debug, PartialEq, Eq)]
pub enum Json {
    Null,
    Bool(bool),
    /// A number, as decimal text (`5`, `-3`, `0.5`, `1e-7`).
    Number(String),
    Text(String),
    Array(Vec<Json>),
    Object(Vec<Member>),
}

/// One `name: value` entry of a JSON object.
#[derive(Debug, PartialEq, Eq)]
pub struct Member {
    pub name: String,
    pub value: Json,
}

/// The mathematical value of a [`Json`] tree: strings are sequences of
/// characters, arrays are sequences, and an object is the sequence of its
/// members.
pub enum JsonView {
    Null,
    Bool(bool),
    Number(Seq<char>),
    Text(Seq<char>),
    Array(Seq<JsonView>),
    Object(Seq<MemberView>),
}

/// The mathematical value of a [`Member`].
pub struct MemberView {
    pub name: Seq<char>,
    pub value: JsonView,
}

impl View for Member {
    type V = MemberView;

    open spec fn view(&self) -> MemberView {
        MemberView { name: self.name@, value: self.value@ }
    }
}

impl View for Json {
    type V = JsonView;

    open spec fn view(&self) -> JsonView
        decreases self,
    {
        match self {
            Json::Null => JsonView::Null,
            Json::Bool(b) => JsonView::Bool(*b),
            Json::Number(text) => JsonView::Number(text@),
            Json::Text(text) => JsonView::Text(text@),
            Json::Array(items) => JsonView::Array(
                Seq::new(
                    items@.len(),
                    |i: int|
                        if 0 <= i < items@.len() {
                            items@[i].view()
                        } else {
                            JsonView::Null
                        },
                ),
            ),
            Json::Object(members) => JsonView::Object(
                Seq::new(
                    members@.len(),
                    |i: int|
                        if 0 <= i < members@.len() {
                            MemberView { name: members@[i].name@, value: members@[i].value.view() }
                        } else {
                            MemberView { name: Seq::empty(), value: JsonView::Null }
                        },
                ),
            ),
        }
    }
}

/// The values of a sequence of trees, item by item.
pub open spec fn item_views(items: Seq<Json>) -> Seq<JsonView> {
    items.map_values(|j: Json| j@)
}

/// The values of a sequence of members, entry by entry.
pub open spec fn member_views(members: Seq<Member>) -> Seq<MemberView> {
    members.map_values(|m: Member| m@)
}

/// An array is viewed as the sequence of its items' views.
pub proof fn lemma_array_view(items: Vec<Json>)
    ensures
        Json::Array(items)@ == JsonView::Array(item_views(items@)),
{
    assert(Json::Array(items)@->Array_0 =~= item_views(items@));
}

/// An object is viewed as the sequence of its members' views.
pub proof fn lemma_object_view(members: Vec<Member>)
    ensures
        Json::Object(members)@ == JsonView::Object(member_views(members@)),
{
    assert(Json::Object(members)@->Object_0 =~= member_views(members@));
}

impl Json {
    /// The items of an array, or `None` for any other value.
    pub fn as_array(&self) -> (r: Option<&Vec<Json>>)
        ensures
            match r {
                Some(items) => self@ == JsonView::Array(item_views(items@)),
                None => !(self@ is Array),
            },
    {
        match self {
            Json::Array(items) => {
                proof {
                    lemma_array_view(*items);
                }
                Some(items)
            },
            _ => None,
        }
    }

    /// The members of an object, or `None` for any other value.
    pub fn as_object(&self) -> (r: Option<&Vec<Member>>)
        ensures
            match r {
                Some(members) => self@ == JsonView::Object(member_views(members@)),
                None => !(self@ is Object),
            },
    {
        match self {
            Json::Object(members) => {
                proof {
                    lemma_object_view(*members);
                }
                Some(members)
            },
            _ => None,
        }
    }
}

} // verus!
