//! A JSON document as a tree of plain values.

use crate::text::{chars_of, text_is};
use vstd::prelude::*;

verus! {

/// A JSON number, classified the way the parser classifies it.
#[derive(Clone, Copy, Debug, PartialEq, Eq)]
pub enum JsonNumber {
    /// A non-negative integer that fits in 64 bits.
    PosInt(u64),
    /// A negative integer that fits in 64 bits.
    NegInt(i64),
    /// Any other number, held as the bit pattern of its IEEE-754 binary64 value.
    Real(u64),
}

/// One `key: value` entry of a JSON object.
#[derive(Debug, PartialEq, Eq)]
pub struct Member {
    pub key: String,
    pub value: Json,
}

/// A JSON value.
#[derive(Debug, PartialEq, Eq)]
pub enum Json {
    Null,
    Bool(bool),
    Number(JsonNumber),
    String(String),
    Array(Vec<Json>),
    Object(Vec<Member>),
}

/// The mathematical model of a [`Json`] value.
pub enum JsonView {
    Null,
    Bool(bool),
    Number(JsonNumber),
    String(Seq<char>),
    Array(Seq<JsonView>),
    Object(Seq<(Seq<char>, JsonView)>),
}

impl View for Member {
    type V = (Seq<char>, JsonView);

    open spec fn view(&self) -> (Seq<char>, JsonView) {
        (self.key@, self.value@)
    }
}

/// The model of a value: the same tree, with each text as its characters.
pub open spec fn model_of(value: Json) -> JsonView
    decreases value,
{
    match value {
        Json::Null => JsonView::Null,
        Json::Bool(b) => JsonView::Bool(b),
        Json::Number(n) => JsonView::Number(n),
        Json::String(s) => JsonView::String(s@),
        Json::Array(items) => JsonView::Array(
            Seq::new(
                items@.len(),
                |i: int|
                    if 0 <= i < items@.len() {
                        model_of(items@[i])
                    } else {
                        JsonView::Null
                    },
            ),
        ),
        Json::Object(members) => JsonView::Object(
            Seq::new(
                members@.len(),
                |i: int|
                    if 0 <= i < members@.len() {
                        (members@[i].key@, model_of(members@[i].value))
                    } else {
                        (Seq::empty(), JsonView::Null)
                    },
            ),
        ),
    }
}

impl View for Json {
    type V = JsonView;

    open spec fn view(&self) -> JsonView {
        model_of(*self)
    }
}

/// The value of the first entry of `members` whose key is `key`.
pub open spec fn find_member(members: Seq<(Seq<char>, JsonView)>, key: Seq<char>) -> Option<
    JsonView,
>
    decreases members.len(),
{
    if members.len() == 0 {
        None
    } else if members[0].0 == key {
        Some(members[0].1)
    } else {
        find_member(members.drop_first(), key)
    }
}

impl JsonView {
    /// The member `key` of an object; nothing for any other value.
    pub open spec fn member(self, key: Seq<char>) -> Option<JsonView> {
        match self {
            JsonView::Object(members) => find_member(members, key),
            _ => None,
        }
    }

    /// The element at `index` of an array; nothing for any other value.
    pub open spec fn element(self, index: int) -> Option<JsonView> {
        match self {
            JsonView::Array(items) => if 0 <= index < items.len() {
                Some(items[index])
            } else {
                None
            },
            _ => None,
        }
    }

    /// The text of a string value.
    pub open spec fn as_text(self) -> Option<Seq<char>> {
        match self {
            JsonView::String(text) => Some(text),
            _ => None,
        }
    }

    /// The value of a number that is a non-negative integer.
    pub open spec fn as_unsigned(self) -> Option<u64> {
        match self {
            JsonView::Number(JsonNumber::PosInt(n)) => Some(n),
            _ => None,
        }
    }

    /// The elements of an array.
    pub open spec fn as_array(self) -> Option<Seq<JsonView>> {
        match self {
            JsonView::Array(items) => Some(items),
            _ => None,
        }
    }
}

/// The view of an optional reference into a document.
pub open spec fn view_of(found: Option<&Json>) -> Option<JsonView> {
    match found {
        Some(value) => Some(value@),
        None => None,
    }
}

/// The models of a list of values, in order.
pub open spec fn item_views(items: Seq<Json>) -> Seq<JsonView> {
    Seq::new(items.len(), |i: int| items[i]@)
}

/// The models of the entries of an object, in order.
pub open spec fn member_views(members: Seq<Member>) -> Seq<(Seq<char>, JsonView)> {
    Seq::new(members.len(), |i: int| members[i]@)
}

impl Member {
    /// The entry `key: value`.
    pub fn new(key: &str, value: Json) -> (member: Member)
        ensures
            member@ == (key@, value@),
    {
        Member { key: key.to_owned(), value }
    }
}

impl Json {
    /// The string value that holds `text`.
    pub fn text(text: &str) -> (json: Json)
        ensures
            json@ == JsonView::String(text@),
    {
        Json::String(text.to_owned())
    }

    /// The array of `items`.
    pub fn array(items: Vec<Json>) -> (json: Json)
        ensures
            json@ == JsonView::Array(item_views(items@)),
    {
        let json = Json::Array(items);
        assert(json@->Array_0 =~= item_views(items@));
        json
    }

    /// The object with the entries `members`, in that order.
    pub fn object(members: Vec<Member>) -> (json: Json)
        ensures
            json@ == JsonView::Object(member_views(members@)),
    {
        let json = Json::Object(members);
        assert(json@->Object_0 =~= member_views(members@));
        json
    }

    /// Looks up the member `key` of an object.
    pub fn member(&self, key: &str) -> (found: Option<&Json>)
        ensures
            view_of(found) == self@.member(key@),
    {
        match self {
            Json::Object(members) => {
                let wanted = chars_of(key);
                let ghost all = self@->Object_0;
                assert(all.skip(0) == all);
                let mut i: usize = 0;
                while i < members.len()
                    invariant
                        i <= members.len(),
                        wanted@ == key@,
                        self@ == JsonView::Object(all),
                        all.len() == members@.len(),
                        forall|j: int|
                            0 <= j < members@.len() ==> all[j] == (
                                #[trigger] members@[j].key@,
                                members@[j].value@,
                            ),
                        find_member(all, key@) == find_member(all.skip(i as int), key@),
                    decreases members.len() - i,
                {
                    let entry = &members[i];
                    assert(all[i as int] == (members@[i as int].key@, members@[i as int].value@));
                    assert(all.skip(i as int)[0] == all[i as int]);
                    assert(all.skip(i as int).drop_first() == all.skip(i + 1));
                    if text_is(entry.key.as_str(), &wanted) {
                        return Some(&entry.value);
                    }
                    i += 1;
                }
                assert(all.skip(i as int).len() == 0);
                None
            },
            _ => None,
        }
    }

    /// Looks up the element at `index` of an array.
    pub fn element(&self, index: usize) -> (found: Option<&Json>)
        ensures
            view_of(found) == self@.element(index as int),
    {
        match self {
            Json::Array(items) => if index < items.len() {
                Some(&items[index])
            } else {
                None
            },
            _ => None,
        }
    }

    /// The text of a string value.
    pub fn as_text(&self) -> (text: Option<&str>)
        ensures
            match text {
                Some(t) => self@.as_text() == Some(t@),
                None => self@.as_text().is_none(),
            },
    {
        match self {
            Json::String(text) => Some(text.as_str()),
            _ => None,
        }
    }

    /// The value of a number that is a non-negative integer.
    pub fn as_unsigned(&self) -> (value: Option<u64>)
        ensures
            value == self@.as_unsigned(),
    {
        match self {
            Json::Number(JsonNumber::PosInt(n)) => Some(*n),
            _ => None,
        }
    }

    /// The elements of an array.
    pub fn as_array(&self) -> (items: Option<&Vec<Json>>)
        ensures
            match items {
                Some(list) => self@.as_array() == Some(item_views(list@)),
                None => self@.as_array().is_none(),
            },
    {
        match self {
            Json::Array(items) => {
                assert(self@->Array_0 =~= item_views(items@));
                Some(items)
            },
            _ => None,
        }
    }
}

/// What the JSON parser makes of a text: the document that the text holds,
/// or, where the text is no JSON document, the parser's complaint.
pub uninterp spec fn json_document(text: Seq<char>) -> Result<JsonView, Seq<char>>;

/// The model of a parser outcome.
pub open spec fn outcome_view(outcome: Result<Json, String>) -> Result<JsonView, Seq<char>> {
    match outcome {
        Ok(value) => Ok(value@),
        Err(complaint) => Err(complaint@),
    }
}

/// `serde_json::Value`, the parser's own tree. It is only carried from the
/// parser to [`import_value`]; nothing is said of what it holds.
#[verifier::external_type_specification]
#[verifier::external_body]
pub struct ExValue(serde_json::Value);

/// `serde_json::Number`, a number inside the parser's tree. It is only
/// carried to [`import_number`]; nothing is said of what it holds.
#[verifier::external_type_specification]
#[verifier::external_body]
pub struct ExNumber(serde_json::Number);

/// Copies a `serde_json::Number`: what `Number::as_u64` yields, else what
/// `Number::as_i64` yields, else the bits of what `Number::as_f64` yields.
/// Nothing is claimed of the result.
#[verifier::external_body]
fn import_number(number: &serde_json::Number) -> JsonNumber {
    if let Some(n) = number.as_u64() {
        JsonNumber::PosInt(n)
    } else if let Some(n) = number.as_i64() {
        JsonNumber::NegInt(n)
    } else {
        JsonNumber::Real(number.as_f64().unwrap_or_default().to_bits())
    }
}

/// Copies a `serde_json::Value` into a [`Json`], variant by variant, the
/// members of an object in the order in which its map hands them out.
/// Nothing is claimed of the result.
#[verifier::external_body]
fn import_value(value: &serde_json::Value) -> Json {
    match value {
        serde_json::Value::Null => Json::Null,
        serde_json::Value::Bool(b) => Json::Bool(*b),
        serde_json::Value::Number(n) => Json::Number(import_number(n)),
        serde_json::Value::String(s) => Json::String(s.clone()),
        serde_json::Value::Array(items) => Json::Array(items.iter().map(import_value).collect()),
        serde_json::Value::Object(map) => Json::Object(
            map.iter().map(|(k, v)| Member { key: k.clone(), value: import_value(v) }).collect(),
        ),
    }
}

/// Parses `text` with `serde_json::from_str` into a `serde_json::Value`.
/// The contract claims only that the outcome, a document or the text of the
/// parser's error, is a function of the characters of `text`: it is what
/// [`json_document`] names.
#[verifier::external_body]
pub(crate) fn parse_document(text: &str) -> (outcome: Result<Json, String>)
    ensures
        outcome_view(outcome) == json_document(text@),
{
    match serde_json::from_str::<serde_json::Value>(text) {
        Ok(value) => Ok(import_value(&value)),
        Err(error) => Err(error.to_string()),
    }
}

} // verus!
