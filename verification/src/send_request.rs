//! Sending a request: what request the editor sends, the bytes of its
//! body, and the record of what came back. The transport belongs to the
//! application; it is handed the request and hands back the outcome.

use vstd::prelude::*;
use vstd::string::StrSliceExecFns;
use vstd::string::StringExecFns;

use crate::header_table::{header_pairs, with_predefined_value};
use crate::request_editor::{method_at, method_for_index, RequestEditor, RequestEditorView};
use crate::text::{
    concat, decimal, decimal_text, eq_ignore_ascii_case, joined, lemma_joined_push, pairs_view,
    same_ignoring_ascii_case,
};
use crate::types::{
    header_states_view, rows_view, BodyType, BodyTypeView, FormDataRow, FormDataRowView,
    FormDataValue, FormDataValueView, HeaderStateView, PredefinedHeader, RequestData,
    RequestDataView, ResponseData, ResponseDataView,
};

verus! {

/// Whether a header row is sent: it is enabled and has a name and a value.
pub open spec fn is_sent_header(row: HeaderStateView) -> bool {
    row.enabled && row.key.len() > 0 && row.value.len() > 0
}

/// The headers that the rows send.
pub open spec fn sent_headers(rows: Seq<HeaderStateView>) -> Seq<(Seq<char>, Seq<char>)> {
    header_pairs(rows.filter(|row: HeaderStateView| is_sent_header(row)))
}

/// Whether any of the headers is named `Content-Type`, in any case.
pub open spec fn names_content_type(headers: Seq<(Seq<char>, Seq<char>)>) -> bool {
    exists|i: int|
        0 <= i < headers.len() && same_ignoring_ascii_case(
            (#[trigger] headers[i]).0,
            "Content-Type"@,
        )
}

/// The headers with the content type that the body calls for: where none
/// names a content type and the body is raw, the content type of its format
/// is added at the end.
pub open spec fn with_content_type(headers: Seq<(Seq<char>, Seq<char>)>, body: BodyTypeView) -> Seq<
    (Seq<char>, Seq<char>),
> {
    if names_content_type(headers) {
        headers
    } else {
        match body {
            BodyTypeView::Raw { content, subtype } => headers.push(
                ("Content-Type"@, subtype.content_type_text()),
            ),
            _ => headers,
        }
    }
}

/// What a form-data row contributes to the body: `key=text`, or
/// `key=@path` for a file.
pub open spec fn form_piece(row: FormDataRowView) -> Seq<char> {
    match row.value {
        FormDataValueView::Text(text) => row.key + seq!['='] + text,
        FormDataValueView::File { path } => row.key + seq!['=', '@'] + path,
    }
}

/// The pieces of the rows that are enabled, in order.
pub open spec fn form_pieces(rows: Seq<FormDataRowView>) -> Seq<Seq<char>> {
    let enabled = rows.filter(|row: FormDataRowView| row.enabled);
    Seq::new(enabled.len(), |i: int| form_piece(enabled[i]))
}

/// The text sent for form-data rows: the pieces of the enabled rows,
/// joined by `&`.
pub open spec fn form_text(rows: Seq<FormDataRowView>) -> Seq<char> {
    joined(form_pieces(rows), '&')
}

/// The bytes sent for a body: none for no body, the UTF-8 bytes of a raw
/// text, and those of the form text for form-data.
pub open spec fn body_payload(body: BodyTypeView) -> Seq<u8> {
    match body {
        BodyTypeView::Empty => Seq::empty(),
        BodyTypeView::Raw { content, subtype } => vstd::utf8::encode_utf8(content),
        BodyTypeView::FormData(rows) => vstd::utf8::encode_utf8(form_text(rows)),
    }
}

/// Whether any of the headers is named `Content-Type`, in any case.
fn has_content_type(headers: &Vec<(String, String)>) -> (any: bool)
    ensures
        any == names_content_type(pairs_view(headers@)),
{
    let mut i: usize = 0;
    while i < headers.len()
        invariant
            i <= headers.len(),
            forall|j: int|
                0 <= j < i ==> !same_ignoring_ascii_case(
                    (#[trigger] pairs_view(headers@)[j]).0,
                    "Content-Type"@,
                ),
        decreases headers.len() - i,
    {
        if eq_ignore_ascii_case(headers[i].0.as_str(), "Content-Type") {
            assert(same_ignoring_ascii_case(pairs_view(headers@)[i as int].0, "Content-Type"@));
            return true;
        }
        i += 1;
    }
    false
}

/// The text that `String::from_utf8_lossy` makes of bytes.
pub uninterp spec fn utf8_lossy(bytes: Seq<u8>) -> Seq<char>;

/// `String::from_utf8_lossy`: the text is a function of the bytes alone, and
/// valid UTF-8 is read as it is.
#[verifier::external_body]
pub(crate) fn lossy_text(bytes: &[u8]) -> (text: String)
    ensures
        text@ == utf8_lossy(bytes@),
        vstd::utf8::valid_utf8(bytes@) ==> text@ == vstd::utf8::decode_utf8(bytes@),
{
    String::from_utf8_lossy(bytes).into_owned()
}

/// A time in milliseconds, cut to the width in which a response keeps it.
pub open spec fn kept_millis(elapsed_ms: u128) -> u64 {
    elapsed_ms as u64
}

/// The record of a response that arrived, after `elapsed_ms` milliseconds:
/// its status and headers, and its body read as text, where bytes that are
/// not UTF-8 are replaced.
pub fn completed_response(
    status: u16,
    elapsed_ms: u128,
    headers: Vec<(String, String)>,
    body: &[u8],
) -> (response: ResponseData)
    ensures
        response@ == (ResponseDataView {
            status: Some(status),
            duration_ms: kept_millis(elapsed_ms),
            headers: pairs_view(headers@),
            body: utf8_lossy(body@),
        }),
        vstd::utf8::valid_utf8(body@) ==> response@.body == vstd::utf8::decode_utf8(body@),
{
    ResponseData {
        status: Some(status),
        duration_ms: #[verifier::truncate] (elapsed_ms as u64),
        headers,
        body: lossy_text(body),
    }
}

/// The record of a request that got no response within `elapsed_ms`
/// milliseconds: no status, no headers, and the transport's complaint as the
/// body.
pub fn failed_response(elapsed_ms: u128, error: &str) -> (response: ResponseData)
    ensures
        response@ == (ResponseDataView {
            status: None,
            duration_ms: kept_millis(elapsed_ms),
            headers: Seq::empty(),
            body: "Request failed: "@ + error@,
        }),
{
    let response = ResponseData {
        status: None,
        duration_ms: #[verifier::truncate] (elapsed_ms as u64),
        headers: Vec::new(),
        body: concat("Request failed: ", error),
    };
    assert(pairs_view(response.headers@) =~= Seq::empty());
    response
}

/// The text sent for form-data rows.
pub fn form_body(rows: &Vec<FormDataRow>) -> (text: String)
    ensures
        text@ == form_text(rows_view(rows@)),
{
    let ghost views = rows_view(rows@);
    let ghost pred = |row: FormDataRowView| row.enabled;
    let mut text = String::new();
    let mut any = false;
    let mut i: usize = 0;
    proof {
        reveal(Seq::filter);
        assert(views.take(0) =~= Seq::empty());
        assert(form_pieces(views.take(0)) =~= Seq::empty());
    }
    while i < rows.len()
        invariant
            i <= rows.len(),
            views == rows_view(rows@),
            any == (form_pieces(views.take(i as int)).len() > 0),
            text@ == form_text(views.take(i as int)),
        decreases rows.len() - i,
    {
        let row = &rows[i];
        proof {
            reveal(Seq::filter);
            assert(views.take(i as int + 1).drop_last() =~= views.take(i as int));
            assert(views.take(i as int + 1).last() == row@);
        }
        if row.enabled {
            proof {
                assert(form_pieces(views.take(i as int + 1)) =~= form_pieces(
                    views.take(i as int),
                ).push(form_piece(row@)));
                lemma_joined_push(
                    form_pieces(views.take(i as int)),
                    '&',
                    form_piece(row@),
                );
            }
            if any {
                text.push('&');
            }
            text.append(row.key.as_str());
            text.push('=');
            match &row.value {
                FormDataValue::Text(value) => {
                    text.append(value.as_str());
                },
                FormDataValue::File { path } => {
                    text.push('@');
                    text.append(path.as_str());
                },
            }
            any = true;
            assert(text@ =~= form_text(views.take(i as int + 1)));
        }
        i += 1;
    }
    assert(views.take(rows.len() as int) =~= views);
    text
}

/// The bytes sent for a body.
pub fn body_bytes(body: &BodyType) -> (bytes: Vec<u8>)
    ensures
        bytes@ == body_payload(body@),
{
    match body {
        BodyType::Empty => Vec::new(),
        BodyType::Raw { content, subtype } => content.as_str().as_bytes_vec(),
        BodyType::FormData(rows) => form_body(rows).as_str().as_bytes_vec(),
    }
}

impl RequestEditorView {
    /// The header rows once the content length is written into them.
    pub open spec fn measured_headers(self) -> Seq<HeaderStateView> {
        with_predefined_value(
            self.headers,
            PredefinedHeader::ContentLength,
            decimal_text(self.body_editor.length() as nat),
            false,
        )
    }

    /// The request that is sent.
    pub open spec fn outgoing_request(self) -> RequestDataView {
        RequestDataView {
            method: method_at(self.method_index),
            url: self.url,
            headers: with_content_type(
                sent_headers(self.measured_headers()),
                self.body_editor.body(),
            ),
            body: self.body_editor.body(),
        }
    }
}

impl RequestEditor {
    /// Writes the length of the body into the content length header.
    pub fn update_content_length(&mut self)
        ensures
            final(self)@ == old(self)@.with_headers(old(self)@.measured_headers()),
    {
        let content_length = decimal(self.body_editor.calculate_length() as u64);
        self.set_predefined_value(PredefinedHeader::ContentLength, content_length, false);
    }

    /// Makes the request to send, and marks the editor as waiting for the
    /// response. Without an address nothing is sent, and nothing changes.
    /// Otherwise the content length is written into its header first; the
    /// request has the headers that are enabled and have a name and a value,
    /// and the content type of a raw body where no header names one.
    pub fn prepare_request(&mut self) -> (request: Option<RequestData>)
        ensures
            old(self)@.url.len() == 0 ==> request is None && final(self)@ == old(self)@,
            old(self)@.url.len() > 0 ==> (request matches Some(r) && r@ == old(
                self,
            )@.outgoing_request()) && final(self)@ == (RequestEditorView {
                headers: old(self)@.measured_headers(),
                loading: true,
                ..old(self)@
            }),
    {
        if self.url.as_str().is_empty() {
            return None;
        }
        self.update_content_length();
        let method = method_for_index(self.method_index);
        let body = self.body_editor.get_body();
        let ghost rows = self@.headers;
        let ghost pred = |row: HeaderStateView| is_sent_header(row);
        let mut headers: Vec<(String, String)> = Vec::new();
        let mut i: usize = 0;
        proof {
            reveal(Seq::filter);
            assert(rows.take(0) =~= Seq::empty());
            assert(pairs_view(headers@) =~= header_pairs(rows.take(0).filter(pred)));
        }
        while i < self.headers.len()
            invariant
                i <= self.headers.len(),
                rows == header_states_view(self.headers@),
                pred == |row: HeaderStateView| is_sent_header(row),
                pairs_view(headers@) == header_pairs(rows.take(i as int).filter(pred)),
            decreases self.headers.len() - i,
        {
            let row = &self.headers[i];
            let ghost before = pairs_view(headers@);
            proof {
                reveal(Seq::filter);
                assert(rows.take(i as int + 1).drop_last() =~= rows.take(i as int));
                assert(rows.take(i as int + 1).last() == row@);
            }
            if row.enabled && !row.key.as_str().is_empty() && !row.value.as_str().is_empty() {
                headers.push((row.key.clone(), row.value.clone()));
                assert(pairs_view(headers@) =~= before.push((row@.key, row@.value)));
                assert(header_pairs(rows.take(i as int + 1).filter(pred)) =~= before.push(
                    (row@.key, row@.value),
                ));
            }
            i += 1;
        }
        assert(rows.take(self.headers.len() as int) =~= rows);
        if !has_content_type(&headers) {
            match &body {
                BodyType::Raw { content, subtype } => {
                    let ghost before = pairs_view(headers@);
                    headers.push(("Content-Type".to_owned(), subtype.content_type().to_owned()));
                    assert(pairs_view(headers@) =~= before.push(
                        ("Content-Type"@, subtype.content_type_text()),
                    ));
                },
                _ => {},
            }
        }
        self.loading = true;
        Some(RequestData { method, url: self.url.clone(), headers, body })
    }

    /// The response, or the failure, has arrived: the editor waits no longer.
    pub fn finish_request(&mut self)
        ensures
            final(self)@ == (RequestEditorView { loading: false, ..old(self)@ }),
    {
        self.loading = false;
    }
}

} // verus!
