//! JSON documents as values of the library's own: what `serde_json` reads
//! and writes, held as plain data that the persistence rules can inspect.

use vstd::prelude::*;

use crate::code_formatter::{json_parsed, parse_json};

verus! {

/// A JSON document.
#[derive(Debug, PartialEq)]
pub enum JsonValue {
    Null,
    Bool(bool),
    /// A number, as it is written.
    Number(String),
    Text(String),
    List(Vec<JsonValue>),
    /// The members of an object, in the order in which they are written.
    Object(Vec<JsonMember>),
}

/// A member of a JSON object.
#[derive(Debug, PartialEq)]
pub struct JsonMember {
    pub name: String,
    pub value: JsonValue,
}

/// A JSON document as plain text.
pub enum JsonModel {
    Null,
    Bool(bool),
    Number(Seq<char>),
    Text(Seq<char>),
    List(Seq<JsonModel>),
    Object(Seq<JsonMemberModel>),
}

/// A member of a JSON object as plain text.
pub struct JsonMemberModel {
    pub name: Seq<char>,
    pub value: JsonModel,
}

impl View for JsonValue {
    type V = JsonModel;

    open spec fn view(&self) -> JsonModel
        decreases self,
    {
        match self {
            JsonValue::Null => JsonModel::Null,
            JsonValue::Bool(b) => JsonModel::Bool(*b),
            JsonValue::Number(n) => JsonModel::Number(n@),
            JsonValue::Text(t) => JsonModel::Text(t@),
            JsonValue::List(items) => JsonModel::List(
                Seq::new(
                    items@.len(),
                    |i: int|
                        if 0 <= i < items@.len() {
                            items@[i].view()
                        } else {
                            JsonModel::Null
                        },
                ),
            ),
            JsonValue::Object(fields) => JsonModel::Object(
                Seq::new(
                    fields@.len(),
                    |i: int|
                        if 0 <= i < fields@.len() {
                            JsonMemberModel {
                                name: fields@[i].name@,
                                value: fields@[i].value.view(),
                            }
                        } else {
                            JsonMemberModel { name: Seq::empty(), value: JsonModel::Null }
                        },
                ),
            ),
        }
    }
}

/// The views of a list of documents.
pub open spec fn items_view(items: Seq<JsonValue>) -> Seq<JsonModel> {
    Seq::new(items.len(), |i: int| items[i]@)
}

/// The views of the members of an object.
pub open spec fn fields_view(fields: Seq<JsonMember>) -> Seq<JsonMemberModel> {
    Seq::new(
        fields.len(),
        |i: int| JsonMemberModel { name: fields[i].name@, value: fields[i].value@ },
    )
}

/// The view of a list is the list of the views of its items.
pub proof fn lemma_list_view(items: Vec<JsonValue>)
    ensures
        JsonValue::List(items)@ == JsonModel::List(items_view(items@)),
{
    assert(JsonValue::List(items)@->List_0 =~= items_view(items@));
}

/// The view of an object is the list of the views of its members.
pub proof fn lemma_object_view(fields: Vec<JsonMember>)
    ensures
        JsonValue::Object(fields)@ == JsonModel::Object(fields_view(fields@)),
{
    assert(JsonValue::Object(fields)@->Object_0 =~= fields_view(fields@));
}

/// The value of the first member with the given name.
pub open spec fn member(fields: Seq<JsonMemberModel>, name: Seq<char>) -> Option<JsonModel>
    decreases fields.len(),
{
    if fields.len() == 0 {
        None
    } else if fields[0].name == name {
        Some(fields[0].value)
    } else {
        member(fields.drop_first(), name)
    }
}

/// The view of a document that may be absent.
pub open spec fn opt_json_view(value: Option<&JsonValue>) -> Option<JsonModel> {
    match value {
        Some(value) => Some(value@),
        None => None,
    }
}

/// The value of the first member with the given name.
pub fn find_member<'a>(fields: &'a Vec<JsonMember>, name: &str) -> (found: Option<
    &'a JsonValue,
>)
    ensures
        opt_json_view(found) == member(fields_view(fields@), name@),
{
    let ghost all = fields_view(fields@);
    let mut i: usize = 0;
    assert(all.skip(0) =~= all);
    while i < fields.len()
        invariant
            i <= fields.len(),
            all == fields_view(fields@),
            member(all, name@) == member(all.skip(i as int), name@),
        decreases fields.len() - i,
    {
        assert(all.skip(i as int)[0] == all[i as int]);
        assert(all.skip(i as int).drop_first() =~= all.skip(i as int + 1));
        if crate::text::same_text(fields[i].name.as_str(), name) {
            return Some(&fields[i].value);
        }
        i += 1;
    }
    None
}

/// What a `serde_json::Value` holds.
pub uninterp spec fn json_content(value: serde_json::Value) -> JsonModel;

/// The `serde_json::Value` that holds a document; none where the document
/// holds a number that `serde_json` does not read as one.
pub uninterp spec fn json_value_for(document: JsonModel) -> Option<serde_json::Value>;

/// The text that `serde_json::to_string` writes for a value.
pub uninterp spec fn json_compact(value: serde_json::Value) -> Seq<char>;

/// A `serde_json::Value` taken apart, variant by variant; a number is kept
/// as it displays.
#[verifier::external_body]
pub(crate) fn value_to_document(value: serde_json::Value) -> (document: JsonValue)
    ensures
        document@ == json_content(value),
{
    match value {
        serde_json::Value::Null => JsonValue::Null,
        serde_json::Value::Bool(b) => JsonValue::Bool(b),
        serde_json::Value::Number(n) => JsonValue::Number(n.to_string()),
        serde_json::Value::String(s) => JsonValue::Text(s),
        serde_json::Value::Array(a) => JsonValue::List(
            a.into_iter().map(value_to_document).collect(),
        ),
        serde_json::Value::Object(o) => JsonValue::Object(
            o.into_iter().map(|(k, v)| JsonMember { name: k, value: value_to_document(v) }).collect(),
        ),
    }
}

/// A `serde_json::Value` put together, variant by variant; a number is
/// read by `serde_json::Number`'s `FromStr`, and a document with a number
/// that this does not read has no value.
#[verifier::external_body]
pub(crate) fn document_to_value(document: &JsonValue) -> (value: Option<serde_json::Value>)
    ensures
        value == json_value_for(document@),
{
    match document {
        JsonValue::Null => Some(serde_json::Value::Null),
        JsonValue::Bool(b) => Some(serde_json::Value::Bool(*b)),
        JsonValue::Number(n) => n.parse().ok().map(serde_json::Value::Number),
        JsonValue::Text(s) => Some(serde_json::Value::String(s.clone())),
        JsonValue::List(a) => a.iter().map(document_to_value).collect::<Option<Vec<_>>>().map(
            serde_json::Value::Array,
        ),
        JsonValue::Object(o) => o.iter().map(
            |m| document_to_value(&m.value).map(|v| (m.name.clone(), v)),
        ).collect::<Option<serde_json::Map<_, _>>>().map(serde_json::Value::Object),
    }
}

/// `serde_json::to_string` of a `Value`: the text is a function of the value
/// alone, and there always is one, as for the pretty printer.
#[verifier::external_body]
pub(crate) fn write_json(value: &serde_json::Value) -> (written: Result<String, serde_json::Error>)
    ensures
        written is Ok,
        written matches Ok(text) ==> text@ == json_compact(*value),
{
    serde_json::to_string(value)
}

/// The document that a text holds, where it is JSON.
pub open spec fn json_document(text: Seq<char>) -> Option<JsonModel> {
    match json_parsed(text) {
        Ok(value) => Some(json_content(value)),
        Err(_) => None,
    }
}

/// The compact text of a document: none where the document holds a number
/// that is none to `serde_json`.
pub open spec fn json_text(document: JsonModel) -> Option<Seq<char>> {
    match json_value_for(document) {
        Some(value) => Some(json_compact(value)),
        None => None,
    }
}

/// The view of an owned document that may be absent.
pub open spec fn opt_document_view(document: Option<JsonValue>) -> Option<JsonModel> {
    match document {
        Some(document) => Some(document@),
        None => None,
    }
}

/// Reads a text as one JSON document.
pub fn read_document(text: &str) -> (document: Option<JsonValue>)
    ensures
        opt_document_view(document) == json_document(text@),
{
    match parse_json(text) {
        Ok(value) => Some(value_to_document(value)),
        Err(_) => None,
    }
}

/// Writes a document as compact JSON; a document that holds a number
/// which is none to `serde_json` is not written.
pub fn write_document(document: &JsonValue) -> (text: Option<String>)
    ensures
        crate::text::opt_text(text) == json_text(document@),
{
    match document_to_value(document) {
        Some(value) => match write_json(&value) {
            Ok(text) => Some(text),
            Err(_) => None,
        },
        None => None,
    }
}

} // verus!
