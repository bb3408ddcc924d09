//! The shape in which bodies and headers are written as JSON.
//!
//! A body is written as a tagged union: the text `"None"` for no body, and
//! an object with the single member `Raw` or `FormData` for the others.
//! Headers are written as a list of two-item lists. What is written in this
//! shape is read back as it was.

use vstd::prelude::*;

use crate::json::{
    fields_view, find_member, items_view, lemma_list_view, lemma_object_view, member, JsonMember,
    JsonMemberModel, JsonModel, JsonValue,
};
use crate::text::{pair_view, pairs_view, same_text};
use crate::types::{
    rows_view, BodyType, BodyTypeView, FormDataRow, FormDataRowView, FormDataValue,
    FormDataValueView, RawSubtype,
};

verus! {

/// A member with the given name.
pub open spec fn named_member(name: Seq<char>, value: JsonModel) -> JsonMemberModel {
    JsonMemberModel { name, value }
}

/// An object with a single member: a variant's tag and its payload.
pub open spec fn tagged(tag: Seq<char>, payload: JsonModel) -> JsonModel {
    JsonModel::Object(seq![named_member(tag, payload)])
}

/// The tag of a raw format.
pub open spec fn subtype_tag(subtype: RawSubtype) -> Seq<char> {
    match subtype {
        RawSubtype::Json => "Json"@,
        RawSubtype::Xml => "Xml"@,
        RawSubtype::Text => "Text"@,
        RawSubtype::JavaScript => "JavaScript"@,
    }
}

/// A form-data value as JSON.
pub open spec fn form_value_json(value: FormDataValueView) -> JsonModel {
    match value {
        FormDataValueView::Text(text) => tagged("Text"@, JsonModel::Text(text)),
        FormDataValueView::File { path } => tagged(
            "File"@,
            JsonModel::Object(seq![named_member("path"@, JsonModel::Text(path))]),
        ),
    }
}

/// A form-data row as JSON.
pub open spec fn row_json(row: FormDataRowView) -> JsonModel {
    JsonModel::Object(
        seq![
            named_member("enabled"@, JsonModel::Bool(row.enabled)),
            named_member("key"@, JsonModel::Text(row.key)),
            named_member("value"@, form_value_json(row.value)),
        ],
    )
}

/// Form-data rows as JSON, one item each.
pub open spec fn rows_json(rows: Seq<FormDataRowView>) -> Seq<JsonModel> {
    Seq::new(rows.len(), |i: int| row_json(rows[i]))
}

/// A body as JSON.
pub open spec fn body_json(body: BodyTypeView) -> JsonModel {
    match body {
        BodyTypeView::Empty => JsonModel::Text("None"@),
        BodyTypeView::Raw { content, subtype } => tagged(
            "Raw"@,
            JsonModel::Object(
                seq![
                    named_member("content"@, JsonModel::Text(content)),
                    named_member("subtype"@, JsonModel::Text(subtype_tag(subtype))),
                ],
            ),
        ),
        BodyTypeView::FormData(rows) => tagged("FormData"@, JsonModel::List(rows_json(rows))),
    }
}

/// A header as JSON: the list of its name and its value.
pub open spec fn header_json(header: (Seq<char>, Seq<char>)) -> JsonModel {
    JsonModel::List(seq![JsonModel::Text(header.0), JsonModel::Text(header.1)])
}

/// Headers as JSON: the list of them.
pub open spec fn headers_json(headers: Seq<(Seq<char>, Seq<char>)>) -> JsonModel {
    JsonModel::List(Seq::new(headers.len(), |i: int| header_json(headers[i])))
}

/// The raw format that a document names.
pub open spec fn json_subtype(document: JsonModel) -> Option<RawSubtype> {
    match document {
        JsonModel::Text(tag) => if tag == "Json"@ {
            Some(RawSubtype::Json)
        } else if tag == "Xml"@ {
            Some(RawSubtype::Xml)
        } else if tag == "Text"@ {
            Some(RawSubtype::Text)
        } else if tag == "JavaScript"@ {
            Some(RawSubtype::JavaScript)
        } else {
            None
        },
        _ => None,
    }
}

/// The text of a member, where the object has it and it is a text.
pub open spec fn text_member(fields: Seq<JsonMemberModel>, name: Seq<char>) -> Option<Seq<char>> {
    match member(fields, name) {
        Some(JsonModel::Text(text)) => Some(text),
        _ => None,
    }
}

/// The only member of a document, where it is an object with one member.
pub open spec fn only_member(document: JsonModel) -> Option<JsonMemberModel> {
    match document {
        JsonModel::Object(fields) => if fields.len() == 1 {
            Some(fields[0])
        } else {
            None
        },
        _ => None,
    }
}

/// The form-data value that a document stands for.
pub open spec fn json_form_value(document: JsonModel) -> Option<FormDataValueView> {
    match only_member(document) {
        Some(variant) => if variant.name == "Text"@ {
            match variant.value {
                JsonModel::Text(text) => Some(FormDataValueView::Text(text)),
                _ => None,
            }
        } else if variant.name == "File"@ {
            match variant.value {
                JsonModel::Object(fields) => match text_member(fields, "path"@) {
                    Some(path) => Some(FormDataValueView::File { path }),
                    None => None,
                },
                _ => None,
            }
        } else {
            None
        },
        None => None,
    }
}

/// The form-data row that a document stands for.
pub open spec fn json_row(document: JsonModel) -> Option<FormDataRowView> {
    match document {
        JsonModel::Object(fields) => match (
            member(fields, "enabled"@),
            text_member(fields, "key"@),
            member(fields, "value"@),
        ) {
            (Some(JsonModel::Bool(enabled)), Some(key), Some(value)) => match json_form_value(
                value,
            ) {
                Some(value) => Some(FormDataRowView { enabled, key, value }),
                None => None,
            },
            _ => None,
        },
        _ => None,
    }
}

/// The form-data rows that a list of documents stands for: none unless
/// every item stands for a row.
pub open spec fn json_rows(items: Seq<JsonModel>) -> Option<Seq<FormDataRowView>>
    decreases items.len(),
{
    if items.len() == 0 {
        Some(Seq::empty())
    } else {
        match (json_rows(items.drop_last()), json_row(items.last())) {
            (Some(rows), Some(row)) => Some(rows.push(row)),
            _ => None,
        }
    }
}

/// The body that a document stands for.
pub open spec fn json_body(document: JsonModel) -> Option<BodyTypeView> {
    match document {
        JsonModel::Text(tag) => if tag == "None"@ {
            Some(BodyTypeView::Empty)
        } else {
            None
        },
        _ => match only_member(document) {
            Some(variant) => if variant.name == "Raw"@ {
                match variant.value {
                    JsonModel::Object(fields) => match (
                        text_member(fields, "content"@),
                        member(fields, "subtype"@),
                    ) {
                        (Some(content), Some(subtype)) => match json_subtype(subtype) {
                            Some(subtype) => Some(BodyTypeView::Raw { content, subtype }),
                            None => None,
                        },
                        _ => None,
                    },
                    _ => None,
                }
            } else if variant.name == "FormData"@ {
                match variant.value {
                    JsonModel::List(items) => match json_rows(items) {
                        Some(rows) => Some(BodyTypeView::FormData(rows)),
                        None => None,
                    },
                    _ => None,
                }
            } else {
                None
            },
            None => None,
        },
    }
}

/// The header that a document stands for: it is a list of two texts.
pub open spec fn json_header(document: JsonModel) -> Option<(Seq<char>, Seq<char>)> {
    match document {
        JsonModel::List(items) => if items.len() == 2 {
            match (items[0], items[1]) {
                (JsonModel::Text(name), JsonModel::Text(value)) => Some((name, value)),
                _ => None,
            }
        } else {
            None
        },
        _ => None,
    }
}

/// The headers that a list of documents stands for: none unless every
/// item stands for a header.
pub open spec fn json_header_list(items: Seq<JsonModel>) -> Option<Seq<(Seq<char>, Seq<char>)>>
    decreases items.len(),
{
    if items.len() == 0 {
        Some(Seq::empty())
    } else {
        match (json_header_list(items.drop_last()), json_header(items.last())) {
            (Some(headers), Some(header)) => Some(headers.push(header)),
            _ => None,
        }
    }
}

/// The headers that a document stands for.
pub open spec fn json_headers(document: JsonModel) -> Option<Seq<(Seq<char>, Seq<char>)>> {
    match document {
        JsonModel::List(items) => json_header_list(items),
        _ => None,
    }
}

/// The view of a form-data value that may be absent.
pub open spec fn opt_form_value_view(value: Option<FormDataValue>) -> Option<FormDataValueView> {
    match value {
        Some(value) => Some(value@),
        None => None,
    }
}

/// The view of a form-data row that may be absent.
pub open spec fn opt_row_view(row: Option<FormDataRow>) -> Option<FormDataRowView> {
    match row {
        Some(row) => Some(row@),
        None => None,
    }
}

/// The view of a body that may be absent.
pub open spec fn opt_body_view(body: Option<BodyType>) -> Option<BodyTypeView> {
    match body {
        Some(body) => Some(body@),
        None => None,
    }
}

/// The view of headers that may be absent.
pub open spec fn opt_headers_view(headers: Option<Vec<(String, String)>>) -> Option<
    Seq<(Seq<char>, Seq<char>)>,
> {
    match headers {
        Some(headers) => Some(pairs_view(headers@)),
        None => None,
    }
}

/// A text as a document.
fn text_value(text: &str) -> (document: JsonValue)
    ensures
        document@ == JsonModel::Text(text@),
{
    JsonValue::Text(text.to_owned())
}

/// A member with the given name.
fn member_of(name: &str, value: JsonValue) -> (field: JsonMember)
    ensures
        field.name@ == name@,
        field.value@ == value@,
{
    JsonMember { name: name.to_owned(), value }
}

/// The object with the given members.
fn object_of(fields: Vec<JsonMember>) -> (document: JsonValue)
    ensures
        document@ == JsonModel::Object(fields_view(fields@)),
{
    proof {
        lemma_object_view(fields);
    }
    JsonValue::Object(fields)
}

/// The list of the given items.
fn list_of(items: Vec<JsonValue>) -> (document: JsonValue)
    ensures
        document@ == JsonModel::List(items_view(items@)),
{
    proof {
        lemma_list_view(items);
    }
    JsonValue::List(items)
}

/// The object whose single member is a variant's tag and payload.
fn tagged_value(tag: &str, payload: JsonValue) -> (document: JsonValue)
    ensures
        document@ == tagged(tag@, payload@),
{
    let mut fields: Vec<JsonMember> = Vec::new();
    fields.push(member_of(tag, payload));
    assert(fields_view(fields@) =~= seq![named_member(tag@, payload@)]);
    object_of(fields)
}

/// The tag of a raw format.
fn subtype_name(subtype: RawSubtype) -> (tag: &'static str)
    ensures
        tag@ == subtype_tag(subtype),
{
    match subtype {
        RawSubtype::Json => "Json",
        RawSubtype::Xml => "Xml",
        RawSubtype::Text => "Text",
        RawSubtype::JavaScript => "JavaScript",
    }
}

/// A form-data value as a document.
fn form_value_to_json(value: &FormDataValue) -> (document: JsonValue)
    ensures
        document@ == form_value_json(value@),
{
    match value {
        FormDataValue::Text(text) => tagged_value("Text", text_value(text.as_str())),
        FormDataValue::File { path } => {
            let mut fields: Vec<JsonMember> = Vec::new();
            fields.push(member_of("path", text_value(path.as_str())));
            assert(fields_view(fields@) =~= seq![named_member("path"@, JsonModel::Text(path@))]);
            tagged_value("File", object_of(fields))
        },
    }
}

/// A form-data row as a document.
fn row_to_json(row: &FormDataRow) -> (document: JsonValue)
    ensures
        document@ == row_json(row@),
{
    let mut fields: Vec<JsonMember> = Vec::new();
    fields.push(member_of("enabled", JsonValue::Bool(row.enabled)));
    fields.push(member_of("key", text_value(row.key.as_str())));
    fields.push(member_of("value", form_value_to_json(&row.value)));
    assert(fields_view(fields@) =~= seq![
        named_member("enabled"@, JsonModel::Bool(row.enabled)),
        named_member("key"@, JsonModel::Text(row.key@)),
        named_member("value"@, form_value_json(row.value@)),
    ]);
    object_of(fields)
}

/// A body as a document, in the shape of the store.
pub fn body_to_json(body: &BodyType) -> (document: JsonValue)
    ensures
        document@ == body_json(body@),
{
    match body {
        BodyType::Empty => text_value("None"),
        BodyType::Raw { content, subtype } => {
            let mut fields: Vec<JsonMember> = Vec::new();
            fields.push(member_of("content", text_value(content.as_str())));
            fields.push(member_of("subtype", text_value(subtype_name(*subtype))));
            assert(fields_view(fields@) =~= seq![
                named_member("content"@, JsonModel::Text(content@)),
                named_member("subtype"@, JsonModel::Text(subtype_tag(*subtype))),
            ]);
            tagged_value("Raw", object_of(fields))
        },
        BodyType::FormData(rows) => {
            let mut items: Vec<JsonValue> = Vec::new();
            let mut i: usize = 0;
            while i < rows.len()
                invariant
                    i <= rows.len(),
                    items_view(items@) == rows_json(rows_view(rows@)).take(i as int),
                decreases rows.len() - i,
            {
                let ghost before = items_view(items@);
                let item = row_to_json(&rows[i]);
                items.push(item);
                assert(items_view(items@) =~= before.push(row_json(rows@[i as int]@)));
                assert(rows_json(rows_view(rows@)).take(i as int + 1) =~= rows_json(
                    rows_view(rows@),
                ).take(i as int).push(row_json(rows@[i as int]@)));
                i += 1;
            }
            assert(rows_json(rows_view(rows@)).take(rows.len() as int) =~= rows_json(
                rows_view(rows@),
            ));
            tagged_value("FormData", list_of(items))
        },
    }
}

/// Headers as a document, in the shape of the store.
pub fn headers_to_json(headers: &Vec<(String, String)>) -> (document: JsonValue)
    ensures
        document@ == headers_json(pairs_view(headers@)),
{
    let ghost wanted = headers_json(pairs_view(headers@))->List_0;
    let mut items: Vec<JsonValue> = Vec::new();
    let mut i: usize = 0;
    while i < headers.len()
        invariant
            i <= headers.len(),
            wanted == headers_json(pairs_view(headers@))->List_0,
            items_view(items@) == wanted.take(i as int),
        decreases headers.len() - i,
    {
        let ghost before = items_view(items@);
        let mut pair: Vec<JsonValue> = Vec::new();
        pair.push(text_value(headers[i].0.as_str()));
        pair.push(text_value(headers[i].1.as_str()));
        assert(items_view(pair@) =~= seq![
            JsonModel::Text(headers@[i as int].0@),
            JsonModel::Text(headers@[i as int].1@),
        ]);
        let item = list_of(pair);
        items.push(item);
        assert(items_view(items@) =~= before.push(header_json(pair_view(headers@[i as int]))));
        assert(wanted.take(i as int + 1) =~= wanted.take(i as int).push(
            header_json(pair_view(headers@[i as int])),
        ));
        i += 1;
    }
    assert(wanted.take(headers.len() as int) =~= wanted);
    list_of(items)
}

/// The text of a member, where the object has it and it is a text.
fn find_text<'a>(fields: &'a Vec<JsonMember>, name: &str) -> (found: Option<&'a String>)
    ensures
        match found {
            Some(text) => text_member(fields_view(fields@), name@) == Some(text@),
            None => text_member(fields_view(fields@), name@) is None,
        },
{
    match find_member(fields, name) {
        Some(JsonValue::Text(text)) => Some(text),
        _ => None,
    }
}

/// The raw format that a document names.
fn subtype_from_json(document: &JsonValue) -> (subtype: Option<RawSubtype>)
    ensures
        subtype == json_subtype(document@),
{
    match document {
        JsonValue::Text(tag) => {
            if same_text(tag.as_str(), "Json") {
                Some(RawSubtype::Json)
            } else if same_text(tag.as_str(), "Xml") {
                Some(RawSubtype::Xml)
            } else if same_text(tag.as_str(), "Text") {
                Some(RawSubtype::Text)
            } else if same_text(tag.as_str(), "JavaScript") {
                Some(RawSubtype::JavaScript)
            } else {
                None
            }
        },
        _ => None,
    }
}

/// The form-data value that a document stands for.
fn form_value_from_json(document: &JsonValue) -> (value: Option<FormDataValue>)
    ensures
        opt_form_value_view(value) == json_form_value(document@),
{
    match document {
        JsonValue::Object(fields) => {
            proof {
                lemma_object_view(*fields);
            }
            if fields.len() != 1 {
                return None;
            }
            let variant = &fields[0];
            if same_text(variant.name.as_str(), "Text") {
                match &variant.value {
                    JsonValue::Text(text) => Some(FormDataValue::Text(text.clone())),
                    _ => None,
                }
            } else if same_text(variant.name.as_str(), "File") {
                match &variant.value {
                    JsonValue::Object(inner) => {
                        proof {
                            lemma_object_view(*inner);
                        }
                        match find_text(inner, "path") {
                            Some(path) => Some(FormDataValue::File { path: path.clone() }),
                            None => None,
                        }
                    },
                    _ => None,
                }
            } else {
                None
            }
        },
        _ => None,
    }
}

/// The form-data row that a document stands for.
fn row_from_json(document: &JsonValue) -> (row: Option<FormDataRow>)
    ensures
        opt_row_view(row) == json_row(document@),
{
    match document {
        JsonValue::Object(fields) => {
            proof {
                lemma_object_view(*fields);
            }
            let enabled = match find_member(fields, "enabled") {
                Some(JsonValue::Bool(enabled)) => *enabled,
                _ => {
                    return None;
                },
            };
            let key = match find_text(fields, "key") {
                Some(key) => key.clone(),
                None => {
                    return None;
                },
            };
            let value = match find_member(fields, "value") {
                Some(value) => value,
                None => {
                    return None;
                },
            };
            match form_value_from_json(value) {
                Some(value) => Some(FormDataRow { enabled, key, value }),
                None => None,
            }
        },
        _ => None,
    }
}

/// The body that a document stands for, where it has the shape of the store.
#[verifier::loop_isolation(false)]
pub fn body_from_json(document: &JsonValue) -> (body: Option<BodyType>)
    ensures
        opt_body_view(body) == json_body(document@),
{
    match document {
        JsonValue::Text(tag) => {
            if same_text(tag.as_str(), "None") {
                Some(BodyType::Empty)
            } else {
                None
            }
        },
        JsonValue::Object(fields) => {
            proof {
                lemma_object_view(*fields);
            }
            if fields.len() != 1 {
                return None;
            }
            let variant = &fields[0];
            if same_text(variant.name.as_str(), "Raw") {
                match &variant.value {
                    JsonValue::Object(inner) => {
                        proof {
                            lemma_object_view(*inner);
                        }
                        let content = match find_text(inner, "content") {
                            Some(content) => content.clone(),
                            None => {
                                return None;
                            },
                        };
                        let subtype = match find_member(inner, "subtype") {
                            Some(subtype) => subtype,
                            None => {
                                return None;
                            },
                        };
                        match subtype_from_json(subtype) {
                            Some(subtype) => Some(BodyType::Raw { content, subtype }),
                            None => None,
                        }
                    },
                    _ => None,
                }
            } else if same_text(variant.name.as_str(), "FormData") {
                match &variant.value {
                    JsonValue::List(items) => {
                        proof {
                            lemma_list_view(*items);
                        }
                        let ghost all = items_view(items@);
                        let mut rows: Vec<FormDataRow> = Vec::new();
                        let mut i: usize = 0;
                        assert(all.take(0) =~= Seq::empty());
                        assert(rows_view(rows@) =~= Seq::empty());
                        while i < items.len()
                            invariant
                                i <= items.len(),
                                all == items_view(items@),
                                json_rows(all.take(i as int)) == Some(rows_view(rows@)),
                            decreases items.len() - i,
                        {
                            let ghost before = rows_view(rows@);
                            assert(all.take(i as int + 1).drop_last() =~= all.take(i as int));
                            assert(all.take(i as int + 1).last() == items@[i as int]@);
                            match row_from_json(&items[i]) {
                                Some(row) => {
                                    rows.push(row);
                                    assert(rows_view(rows@) =~= before.push(row@));
                                },
                                None => {
                                    proof {
                                        lemma_json_rows_prefix(all, i as int + 1);
                                    }
                                    return None;
                                },
                            }
                            i += 1;
                        }
                        assert(all.take(items.len() as int) =~= all);
                        Some(BodyType::FormData(rows))
                    },
                    _ => None,
                }
            } else {
                None
            }
        },
        _ => None,
    }
}

/// The header that a document stands for.
fn header_from_json(document: &JsonValue) -> (header: Option<(String, String)>)
    ensures
        match header {
            Some(pair) => json_header(document@) == Some(pair_view(pair)),
            None => json_header(document@) is None,
        },
{
    match document {
        JsonValue::List(items) => {
            proof {
                lemma_list_view(*items);
            }
            if items.len() != 2 {
                return None;
            }
            match (&items[0], &items[1]) {
                (JsonValue::Text(name), JsonValue::Text(value)) => Some(
                    (name.clone(), value.clone()),
                ),
                _ => None,
            }
        },
        _ => None,
    }
}

/// The headers that a document stands for, where it has the shape of the store.
#[verifier::loop_isolation(false)]
pub fn headers_from_json(document: &JsonValue) -> (headers: Option<Vec<(String, String)>>)
    ensures
        opt_headers_view(headers) == json_headers(document@),
{
    match document {
        JsonValue::List(items) => {
            proof {
                lemma_list_view(*items);
            }
            let ghost all = items_view(items@);
            let mut headers: Vec<(String, String)> = Vec::new();
            let mut i: usize = 0;
            assert(all.take(0) =~= Seq::empty());
            assert(pairs_view(headers@) =~= Seq::empty());
            while i < items.len()
                invariant
                    i <= items.len(),
                    all == items_view(items@),
                    json_header_list(all.take(i as int)) == Some(pairs_view(headers@)),
                decreases items.len() - i,
            {
                let ghost before = pairs_view(headers@);
                assert(all.take(i as int + 1).drop_last() =~= all.take(i as int));
                assert(all.take(i as int + 1).last() == items@[i as int]@);
                match header_from_json(&items[i]) {
                    Some(pair) => {
                        let ghost seen = pair_view(pair);
                        headers.push(pair);
                        assert(pairs_view(headers@) =~= before.push(seen));
                    },
                    None => {
                        proof {
                            lemma_json_headers_prefix(all, i as int + 1);
                        }
                        return None;
                    },
                }
                i += 1;
            }
            assert(all.take(items.len() as int) =~= all);
            Some(headers)
        },
        _ => None,
    }
}

/// Where the first items of a list do not all stand for rows, the list
/// does not either.
proof fn lemma_json_rows_prefix(items: Seq<JsonModel>, n: int)
    requires
        0 <= n <= items.len(),
        json_rows(items.take(n)) is None,
    ensures
        json_rows(items) is None,
    decreases items.len(),
{
    if n < items.len() {
        assert(items.drop_last().take(n) =~= items.take(n));
        lemma_json_rows_prefix(items.drop_last(), n);
    } else {
        assert(items.take(n) =~= items);
    }
}

/// Where the first items of a list do not all stand for headers, the list
/// does not either.
proof fn lemma_json_headers_prefix(items: Seq<JsonModel>, n: int)
    requires
        0 <= n <= items.len(),
        json_header_list(items.take(n)) is None,
    ensures
        json_header_list(items) is None,
    decreases items.len(),
{
    if n < items.len() {
        assert(items.drop_last().take(n) =~= items.take(n));
        lemma_json_headers_prefix(items.drop_last(), n);
    } else {
        assert(items.take(n) =~= items);
    }
}

/// The names of the members and the tags of the variants are all apart.
proof fn lemma_names_apart()
    ensures
        "Text"@ != "File"@,
        "Raw"@ != "FormData"@,
        "enabled"@ != "key"@,
        "enabled"@ != "value"@,
        "key"@ != "value"@,
        "content"@ != "subtype"@,
        "Json"@ != "Xml"@,
        "Json"@ != "Text"@,
        "Json"@ != "JavaScript"@,
        "Xml"@ != "Text"@,
        "Xml"@ != "JavaScript"@,
        "Text"@ != "JavaScript"@,
{
    reveal_strlit("Text");
    reveal_strlit("File");
    reveal_strlit("Raw");
    reveal_strlit("FormData");
    reveal_strlit("enabled");
    reveal_strlit("key");
    reveal_strlit("value");
    reveal_strlit("content");
    reveal_strlit("subtype");
    reveal_strlit("Json");
    reveal_strlit("Xml");
    reveal_strlit("JavaScript");
    assert("Text"@.len() == 4 && "Text"@[0] == 'T');
    assert("File"@.len() == 4 && "File"@[0] == 'F');
    assert("Raw"@.len() == 3);
    assert("FormData"@.len() == 8);
    assert("enabled"@.len() == 7);
    assert("key"@.len() == 3);
    assert("value"@.len() == 5);
    assert("content"@.len() == 7 && "content"@[0] == 'c');
    assert("subtype"@.len() == 7 && "subtype"@[0] == 's');
    assert("Json"@.len() == 4 && "Json"@[0] == 'J');
    assert("Xml"@.len() == 3);
    assert("JavaScript"@.len() == 10);
}

/// A row written as JSON is read back as it was.
pub proof fn lemma_row_round_trip(row: FormDataRowView)
    ensures
        json_row(row_json(row)) == Some(row),
{
    lemma_names_apart();
    reveal_with_fuel(member, 4);
    let fields = row_json(row)->Object_0;
    assert(fields.drop_first() =~= seq![
        named_member("key"@, JsonModel::Text(row.key)),
        named_member("value"@, form_value_json(row.value)),
    ]);
    assert(fields.drop_first().drop_first() =~= seq![
        named_member("value"@, form_value_json(row.value)),
    ]);
    assert(member(fields, "enabled"@) == Some(JsonModel::Bool(row.enabled)));
    assert(member(fields, "key"@) == Some(JsonModel::Text(row.key)));
    assert(member(fields, "value"@) == Some(form_value_json(row.value)));
    match row.value {
        FormDataValueView::Text(text) => {},
        FormDataValueView::File { path } => {
            let inner = seq![named_member("path"@, JsonModel::Text(path))];
            assert(member(inner, "path"@) == Some(JsonModel::Text(path)));
        },
    }
}

/// Rows written as JSON are read back as they were.
pub proof fn lemma_rows_round_trip(rows: Seq<FormDataRowView>)
    ensures
        json_rows(rows_json(rows)) == Some(rows),
    decreases rows.len(),
{
    if rows.len() == 0 {
        assert(rows =~= Seq::empty());
    } else {
        lemma_rows_round_trip(rows.drop_last());
        lemma_row_round_trip(rows.last());
        assert(rows_json(rows).drop_last() =~= rows_json(rows.drop_last()));
        assert(rows_json(rows).last() == row_json(rows.last()));
        assert(rows.drop_last().push(rows.last()) =~= rows);
    }
}

/// A body written in the shape of the store is read back as it was: the
/// kind, the text and format of a raw body, and of every form-data row the
/// switch, the key, and the value with its kind.
pub proof fn lemma_body_round_trip(body: BodyTypeView)
    ensures
        json_body(body_json(body)) == Some(body),
{
    lemma_names_apart();
    reveal_with_fuel(member, 3);
    match body {
        BodyTypeView::Empty => {},
        BodyTypeView::Raw { content, subtype } => {
            let fields = seq![
                named_member("content"@, JsonModel::Text(content)),
                named_member("subtype"@, JsonModel::Text(subtype_tag(subtype))),
            ];
            assert(fields.drop_first() =~= seq![
                named_member("subtype"@, JsonModel::Text(subtype_tag(subtype))),
            ]);
            assert(member(fields, "content"@) == Some(JsonModel::Text(content)));
            assert(member(fields, "subtype"@) == Some(JsonModel::Text(subtype_tag(subtype))));
        },
        BodyTypeView::FormData(rows) => {
            lemma_rows_round_trip(rows);
        },
    }
}

/// Headers written in the shape of the store are read back as they were.
pub proof fn lemma_headers_round_trip(headers: Seq<(Seq<char>, Seq<char>)>)
    ensures
        json_headers(headers_json(headers)) == Some(headers),
    decreases headers.len(),
{
    let items = headers_json(headers)->List_0;
    if headers.len() == 0 {
        assert(headers =~= Seq::empty());
    } else {
        lemma_headers_round_trip(headers.drop_last());
        assert(items.drop_last() =~= headers_json(headers.drop_last())->List_0);
        assert(items.last() == header_json(headers.last()));
        assert(headers.drop_last().push(headers.last()) =~= headers);
    }
}

} // verus!
