//! The history as it is stored: one row per request, with the headers and
//! the body written as JSON. The store itself belongs to the application;
//! what a row holds, and what is made of a row that was read, is decided here.

use vstd::prelude::*;

use crate::json::{json_document, json_text, read_document, write_document};
use crate::json_shape::{
    body_from_json, body_json, body_to_json, headers_from_json, headers_json, headers_to_json,
    json_body, json_headers,
};
use crate::text::{opt_text, pairs_view};
use crate::types::{
    unicode_uppercase, BodyType, BodyTypeView, HistoryItem, HistoryItemView, HttpMethod,
    RequestData, RequestDataView, ResponseData, ResponseDataView,
};

verus! {

/// The text stored for a body: its document written as compact JSON, and
/// nothing where that cannot be written.
pub open spec fn stored_body(body: BodyTypeView) -> Seq<char> {
    match json_text(body_json(body)) {
        Some(text) => text,
        None => Seq::empty(),
    }
}

/// The body that a stored text stands for: the initial body where the text
/// is not JSON or not the shape of a body.
pub open spec fn loaded_body(text: Seq<char>) -> BodyTypeView {
    match json_document(text) {
        Some(document) => match json_body(document) {
            Some(body) => body,
            None => BodyTypeView::initial(),
        },
        None => BodyTypeView::initial(),
    }
}

/// The text stored for headers.
pub open spec fn stored_headers(headers: Seq<(Seq<char>, Seq<char>)>) -> Seq<char> {
    match json_text(headers_json(headers)) {
        Some(text) => text,
        None => Seq::empty(),
    }
}

/// The headers that a stored text stands for: none where the text is not
/// JSON or not the shape of headers.
pub open spec fn loaded_headers(text: Seq<char>) -> Seq<(Seq<char>, Seq<char>)> {
    match json_document(text) {
        Some(document) => match json_headers(document) {
            Some(headers) => headers,
            None => Seq::empty(),
        },
        None => Seq::empty(),
    }
}

/// The text to store for a body.
pub fn encode_body(body: &BodyType) -> (text: String)
    ensures
        text@ == stored_body(body@),
{
    let document = body_to_json(body);
    match write_document(&document) {
        Some(text) => text,
        None => String::new(),
    }
}

/// The body that a stored text stands for.
pub fn decode_body(text: &str) -> (body: BodyType)
    ensures
        body@ == loaded_body(text@),
{
    match read_document(text) {
        Some(document) => match body_from_json(&document) {
            Some(body) => body,
            None => BodyType::default(),
        },
        None => BodyType::default(),
    }
}

/// The text to store for headers.
pub fn encode_headers(headers: &Vec<(String, String)>) -> (text: String)
    ensures
        text@ == stored_headers(pairs_view(headers@)),
{
    let document = headers_to_json(headers);
    match write_document(&document) {
        Some(text) => text,
        None => String::new(),
    }
}

/// The headers that a stored text stands for.
pub fn decode_headers(text: &str) -> (headers: Vec<(String, String)>)
    ensures
        pairs_view(headers@) == loaded_headers(text@),
{
    let found = match read_document(text) {
        Some(document) => headers_from_json(&document),
        None => None,
    };
    match found {
        Some(headers) => headers,
        None => {
            let headers: Vec<(String, String)> = Vec::new();
            assert(pairs_view(headers@) =~= Seq::empty());
            headers
        },
    }
}

/// A row of the history as the store hands it out.
#[derive(Debug)]
pub struct HistoryRow {
    pub id: i64,
    pub timestamp: String,
    pub method: String,
    pub url: String,
    /// The request's headers, as JSON.
    pub request_headers: String,
    /// The request's body, as JSON.
    pub request_body: String,
    pub status_code: Option<i64>,
    pub duration_ms: Option<i64>,
    /// The response's headers, as JSON.
    pub response_headers: Option<String>,
    pub response_body: Option<String>,
}

/// A row of the history as plain text.
pub struct HistoryRowView {
    pub id: i64,
    pub timestamp: Seq<char>,
    pub method: Seq<char>,
    pub url: Seq<char>,
    pub request_headers: Seq<char>,
    pub request_body: Seq<char>,
    pub status_code: Option<i64>,
    pub duration_ms: Option<i64>,
    pub response_headers: Option<Seq<char>>,
    pub response_body: Option<Seq<char>>,
}

impl View for HistoryRow {
    type V = HistoryRowView;

    open spec fn view(&self) -> HistoryRowView {
        HistoryRowView {
            id: self.id,
            timestamp: self.timestamp@,
            method: self.method@,
            url: self.url@,
            request_headers: self.request_headers@,
            request_body: self.request_body@,
            status_code: self.status_code,
            duration_ms: self.duration_ms,
            response_headers: opt_text(self.response_headers),
            response_body: opt_text(self.response_body),
        }
    }
}

/// The method that a stored name stands for: the first method where the
/// name is none.
pub open spec fn loaded_method(name: Seq<char>) -> HttpMethod {
    match HttpMethod::named(unicode_uppercase(name)) {
        Some(method) => method,
        None => HttpMethod::GET,
    }
}

impl HistoryRowView {
    /// The response that the row holds: one only where both the status and
    /// the duration were stored. The numbers are cut to the width of their
    /// fields; headers that cannot be read count as none, a body that was not
    /// stored as empty.
    pub open spec fn response(self) -> Option<ResponseDataView> {
        match (self.status_code, self.duration_ms) {
            (Some(status), Some(duration)) => Some(
                ResponseDataView {
                    status: Some(status as u16),
                    duration_ms: duration as u64,
                    headers: match self.response_headers {
                        Some(text) => loaded_headers(text),
                        None => Seq::empty(),
                    },
                    body: match self.response_body {
                        Some(text) => text,
                        None => Seq::empty(),
                    },
                },
            ),
            _ => None,
        }
    }

    /// The history record that the row stands for. Whatever cannot be read
    /// falls back to a default, so that every row gives a record.
    pub open spec fn item(self) -> HistoryItemView {
        HistoryItemView {
            id: self.id,
            timestamp: self.timestamp,
            request: RequestDataView {
                method: loaded_method(self.method),
                url: self.url,
                headers: loaded_headers(self.request_headers),
                body: loaded_body(self.request_body),
            },
            response: self.response(),
        }
    }
}

/// The history record that a row stands for.
pub fn history_item_from_row(row: HistoryRow) -> (item: HistoryItem)
    ensures
        item@ == row@.item(),
{
    let headers = decode_headers(row.request_headers.as_str());
    let body = decode_body(row.request_body.as_str());
    let method = match HttpMethod::from_str(row.method.as_str()) {
        Some(method) => method,
        None => HttpMethod::GET,
    };
    let request = RequestData { method, url: row.url, headers, body };
    let response = match (row.status_code, row.duration_ms) {
        (Some(status), Some(duration)) => {
            let headers = match row.response_headers {
                Some(text) => decode_headers(text.as_str()),
                None => {
                    let headers: Vec<(String, String)> = Vec::new();
                    assert(pairs_view(headers@) =~= Seq::empty());
                    headers
                },
            };
            let body = match row.response_body {
                Some(text) => text,
                None => String::new(),
            };
            Some(
                ResponseData {
                    status: Some(#[verifier::truncate] (status as u16)),
                    duration_ms: #[verifier::truncate] (duration as u64),
                    headers,
                    body,
                },
            )
        },
        _ => None,
    };
    HistoryItem::new(row.id, row.timestamp, request, response)
}

/// The columns of a row that is to be stored; the store adds the
/// identifier.
#[derive(Debug)]
pub struct NewHistoryRow {
    pub timestamp: String,
    pub method: String,
    pub url: String,
    pub request_headers: String,
    pub request_body: String,
    pub status_code: Option<i64>,
    pub duration_ms: Option<i64>,
    pub response_headers: Option<String>,
    pub response_body: Option<String>,
}

/// The columns to store for a request and, where there is one, its response.
pub fn new_history_row(
    timestamp: String,
    method: &str,
    url: &str,
    request_headers: &str,
    request_body: &BodyType,
    status_code: Option<u16>,
    duration_ms: Option<u64>,
    response_headers: Option<&str>,
    response_body: Option<&str>,
) -> (row: NewHistoryRow)
    ensures
        row.timestamp@ == timestamp@,
        row.method@ == method@,
        row.url@ == url@,
        row.request_headers@ == request_headers@,
        row.request_body@ == stored_body(request_body@),
        row.status_code == match status_code {
            Some(status) => Some(status as i64),
            None => None,
        },
        row.duration_ms == match duration_ms {
            Some(duration) => Some(duration as i64),
            None => None,
        },
        opt_text(row.response_headers) == match response_headers {
            Some(text) => Some(text@),
            None => None,
        },
        opt_text(row.response_body) == match response_body {
            Some(text) => Some(text@),
            None => None,
        },
{
    NewHistoryRow {
        timestamp,
        method: method.to_owned(),
        url: url.to_owned(),
        request_headers: request_headers.to_owned(),
        request_body: encode_body(request_body),
        status_code: match status_code {
            Some(status) => Some(status as i64),
            None => None,
        },
        duration_ms: match duration_ms {
            Some(duration) => Some(#[verifier::truncate] (duration as i64)),
            None => None,
        },
        response_headers: match response_headers {
            Some(text) => Some(text.to_owned()),
            None => None,
        },
        response_body: match response_body {
            Some(text) => Some(text.to_owned()),
            None => None,
        },
    }
}

} // verus!
