//! A document model for JSON and its binding to the `serde_json` parser.

use crate::error::DecodeError;
use crate::text::same_text;
use vstd::prelude::*;

verus! {

/// A JSON document.
///
/// A number is held as its decimal text, so that no precision is lost and
/// integers of any size can be told from fractions. The members of an object
/// keep the order in which they were given; where a name occurs twice, the
/// later member is the one that counts.
#[derive(Debug, PartialEq, Eq)]
pub enum Json {
    Null,
    Bool(bool),
    Number(String),
    Text(String),
    Array(Vec<Json>),
    Object(Vec<Member>),
}

/// A named member of a JSON object.
#[derive(Debug, PartialEq, Eq)]
pub struct Member {
    pub name: String,
    pub value: Json,
}

/// The mathematical value of a [`Json`] document.
pub enum JsonView {
    Null,
    Bool(bool),
    Number(Seq<char>),
    Text(Seq<char>),
    Array(Seq<JsonView>),
    Object(Seq<MemberView>),
}

/// The mathematical value of a [`Member`].
pub struct MemberView {
    pub name: Seq<char>,
    pub value: JsonView,
}

impl View for Json {
    type V = JsonView;

    open spec fn view(&self) -> JsonView
        decreases self,
    {
        match self {
            Json::Null => JsonView::Null,
            Json::Bool(b) => JsonView::Bool(*b),
            Json::Number(text) => JsonView::Number(text@),
            Json::Text(text) => JsonView::Text(text@),
            Json::Array(items) => JsonView::Array(
                Seq::new(
                    items@.len(),
                    |i: int|
                        if 0 <= i < items@.len() {
                            items@[i].view()
                        } else {
                            JsonView::Null
                        },
                ),
            ),
            Json::Object(members) => JsonView::Object(
                Seq::new(
                    members@.len(),
                    |i: int|
                        if 0 <= i < members@.len() {
                            MemberView { name: members@[i].name@, value: members@[i].value.view() }
                        } else {
                            MemberView { name: Seq::empty(), value: JsonView::Null }
                        },
                ),
            ),
        }
    }
}

/// The member called `key` among `members`: the last one of that name.
pub open spec fn member_of(members: Seq<MemberView>, key: Seq<char>) -> Option<JsonView>
    decreases members.len(),
{
    if members.len() == 0 {
        None
    } else if members.last().name == key {
        Some(members.last().value)
    } else {
        member_of(members.drop_last(), key)
    }
}

impl JsonView {
    /// The member called `key`, if this is an object that has one.
    pub open spec fn get(self, key: Seq<char>) -> Option<JsonView> {
        match self {
            JsonView::Object(members) => member_of(members, key),
            _ => None,
        }
    }

    /// The element at `index`, if this is an array that long.
    pub open spec fn item(self, index: int) -> Option<JsonView> {
        match self {
            JsonView::Array(items) => if 0 <= index < items.len() {
                Some(items[index])
            } else {
                None
            },
            _ => None,
        }
    }
}

/// The member `key` of a document that may be absent.
pub open spec fn field_of(doc: Option<JsonView>, key: Seq<char>) -> Option<JsonView> {
    match doc {
        Some(inner) => inner.get(key),
        None => None,
    }
}

/// The element `index` of a document that may be absent.
pub open spec fn item_of(doc: Option<JsonView>, index: int) -> Option<JsonView> {
    match doc {
        Some(inner) => inner.item(index),
        None => None,
    }
}

/// The mathematical value of a document that may be absent.
pub open spec fn view_of(doc: Option<&Json>) -> Option<JsonView> {
    match doc {
        Some(inner) => Some(inner@),
        None => None,
    }
}

impl Json {
    /// The member called `key`, if this is an object that has one.
    pub fn get(&self, key: &str) -> (found: Option<&Json>)
        ensures
            view_of(found) == self@.get(key@),
    {
        match self {
            Json::Object(members) => {
                let ghost all = Seq::new(
                    members@.len(),
                    |j: int|
                        if 0 <= j < members@.len() {
                            MemberView { name: members@[j].name@, value: members@[j].value@ }
                        } else {
                            MemberView { name: Seq::empty(), value: JsonView::Null }
                        },
                );
                assert(self@ is Object);
                assert(self@->Object_0 =~= all);
                let mut i: usize = members.len();
                assert(all.take(i as int) =~= all);
                while i > 0
                    invariant
                        0 <= i <= members.len(),
                        self@ == JsonView::Object(all),
                        all.len() == members@.len(),
                        forall|j: int|
                            0 <= j < members@.len() ==> (#[trigger] all[j]).name
                                == members@[j].name@ && all[j].value == members@[j].value@,
                        member_of(all, key@) == member_of(all.take(i as int), key@),
                    decreases i,
                {
                    i = i - 1;
                    assert(all.take(i + 1).drop_last() =~= all.take(i as int));
                    assert(all.take(i + 1).last() == all[i as int]);
                    if same_text(members[i].name.as_str(), key) {
                        return Some(&members[i].value);
                    }
                }
                assert(all.take(0).len() == 0);
                None
            },
            _ => None,
        }
    }

    /// The element at `index`, if this is an array that long.
    pub fn item(&self, index: usize) -> (found: Option<&Json>)
        ensures
            view_of(found) == self@.item(index as int),
    {
        match self {
            Json::Array(items) => {
                if index < items.len() {
                    Some(&items[index])
                } else {
                    None
                }
            },
            _ => None,
        }
    }
}

/// The member `key` of a document that may be absent.
pub fn field<'a>(doc: Option<&'a Json>, key: &str) -> (found: Option<&'a Json>)
    ensures
        view_of(found) == field_of(view_of(doc), key@),
{
    match doc {
        Some(inner) => inner.get(key),
        None => None,
    }
}

/// The element `index` of a document that may be absent.
pub fn element<'a>(doc: Option<&'a Json>, index: usize) -> (found: Option<&'a Json>)
    ensures
        view_of(found) == item_of(view_of(doc), index as int),
{
    match doc {
        Some(inner) => inner.item(index),
        None => None,
    }
}

/// `serde_json::Value`, the tree into which `serde_json` parses. Nothing is
/// known of what one holds; it is only copied from and to a [`Json`].
#[verifier::external_type_specification]
#[verifier::external_body]
pub struct ExSerdeValue(serde_json::Value);

/// `serde_json::Error`, with which `serde_json` refuses a text. Nothing is
/// known of what one holds.
#[verifier::external_type_specification]
#[verifier::external_body]
pub struct ExSerdeError(serde_json::Error);

/// The document that `serde_json` reads from `text`, or `None` where it
/// finds no well-formed JSON document there.
pub uninterp spec fn parsed_document(text: Seq<char>) -> Option<JsonView>;

/// The compact JSON text that `serde_json` writes for `doc`, or `None` where
/// it can write none because a number in `doc` is no JSON number.
pub uninterp spec fn rendered_document(doc: JsonView) -> Option<Seq<char>>;

/// Copies a value of `serde_json` into a document, node by node: a number
/// becomes the text that `serde_json` displays for it, and the members of an
/// object come in the order in which its map hands them out.
#[verifier::external_body]
fn document_of(value: &serde_json::Value) -> Json {
    match value {
        serde_json::Value::Null => Json::Null,
        serde_json::Value::Bool(b) => Json::Bool(*b),
        serde_json::Value::Number(n) => Json::Number(n.to_string()),
        serde_json::Value::String(s) => Json::Text(s.clone()),
        serde_json::Value::Array(items) => Json::Array(items.iter().map(document_of).collect()),
        serde_json::Value::Object(map) => Json::Object(
            map.iter().map(|(k, v)| Member { name: k.clone(), value: document_of(v) }).collect(),
        ),
    }
}

/// Calls `serde_json::from_str` for a `serde_json::Value` and copies what it
/// read with [`document_of`]. The contract claims only that the outcome is a
/// function of the text: [`parsed_document`] is the name of that function.
#[verifier::external_body]
fn read_document(text: &str) -> (result: Result<Json, serde_json::Error>)
    ensures
        result matches Ok(doc) ==> parsed_document(text@) == Some(doc@),
        result is Err ==> parsed_document(text@) is None,
{
    match serde_json::from_str::<serde_json::Value>(text) {
        Ok(value) => Ok(document_of(&value)),
        Err(error) => Err(error),
    }
}

/// Copies a document into a value of `serde_json`, node by node. A number is
/// read from its text by `serde_json`'s own `FromStr` for `Number`; where
/// that fails there is no value. Of two members with one name the map keeps
/// the later.
#[verifier::external_body]
fn value_of(doc: &Json) -> Option<serde_json::Value> {
    Some(match doc {
        Json::Null => serde_json::Value::Null,
        Json::Bool(b) => serde_json::Value::Bool(*b),
        Json::Number(text) => serde_json::Value::Number(text.parse().ok()?),
        Json::Text(text) => serde_json::Value::String(text.clone()),
        Json::Array(items) => serde_json::Value::Array(
            items.iter().map(value_of).collect::<Option<_>>()?,
        ),
        Json::Object(members) => serde_json::Value::Object(
            members.iter().map(|m| Some((m.name.clone(), value_of(&m.value)?))).collect::<Option<_>>()?,
        ),
    })
}

/// Copies the document with [`value_of`] and calls `serde_json::to_string`
/// on the copy. The contract claims only that the outcome is a function of
/// the document: [`rendered_document`] is the name of that function.
#[verifier::external_body]
pub(crate) fn write_document(doc: &Json) -> (result: Option<String>)
    ensures
        result matches Some(text) ==> rendered_document(doc@) == Some(text@),
        result is None ==> rendered_document(doc@) is None,
{
    match value_of(doc) {
        Some(value) => serde_json::to_string(&value).ok(),
        None => None,
    }
}

impl Json {
    /// Reads a JSON document from `text`.
    pub fn parse(text: &str) -> (result: Result<Json, DecodeError>)
        ensures
            match result {
                Ok(doc) => parsed_document(text@) == Some(doc@),
                Err(error) => error == DecodeError::InvalidDocument && parsed_document(text@)
                    is None,
            },
    {
        match read_document(text) {
            Ok(doc) => Ok(doc),
            Err(_) => Err(DecodeError::InvalidDocument),
        }
    }
}

} // verus!
