//! The state of a response viewer: the response on show, the text in which
//! its body is displayed, and the lines of its status bar.

use vstd::prelude::*;
use vstd::string::StringExecFns;

use crate::code_formatter::{json_parsed, json_pretty, parse_json, print_json};
use crate::text::{concat, decimal, decimal_text};
use crate::types::{
    clone_response, response_view, status_is_error, status_is_success, status_label,
    ResponseData, ResponseDataView,
};

verus! {

/// The state of a response viewer.
#[derive(Debug)]
pub struct ResponseViewer {
    pub response: Option<ResponseData>,
    /// The body as it is displayed.
    pub body_display: String,
    /// The part shown: 0 the body, 1 the headers.
    pub active_tab: usize,
}

/// A response viewer as plain text.
pub struct ResponseViewerView {
    pub response: Option<ResponseDataView>,
    pub body_display: Seq<char>,
    pub active_tab: usize,
}

impl View for ResponseViewer {
    type V = ResponseViewerView;

    open spec fn view(&self) -> ResponseViewerView {
        ResponseViewerView {
            response: response_view(self.response),
            body_display: self.body_display@,
            active_tab: self.active_tab,
        }
    }
}

/// How a status is to be regarded.
#[derive(Debug, Clone, Copy, PartialEq, Eq, Structural)]
pub enum StatusTone {
    Success,
    Danger,
    Neutral,
}

/// The text in which a body is displayed: pretty-printed where it is JSON,
/// else as it is.
pub open spec fn display_text(body: Seq<char>) -> Seq<char> {
    match json_parsed(body) {
        Ok(value) => json_pretty(value),
        Err(_) => body,
    }
}

/// How a status is to be regarded: no status and a status from 400 on as
/// a danger, one from 200 up to 300 as a success, any other as neither.
pub open spec fn tone_of(status: Option<u16>) -> StatusTone {
    if status is None {
        StatusTone::Danger
    } else if status_is_success(status) {
        StatusTone::Success
    } else if status_is_error(status) {
        StatusTone::Danger
    } else {
        StatusTone::Neutral
    }
}

/// The status as the status bar writes it: the code and its label, or
/// `ERROR` and the label where there is no code.
pub open spec fn status_line_text(status: Option<u16>) -> Seq<char> {
    match status {
        None => "ERROR - "@ + status_label(status),
        Some(code) => decimal_text(code as nat) + seq![' '] + status_label(status),
    }
}

impl ResponseViewerView {
    /// The viewer with nothing on show.
    pub open spec fn empty() -> ResponseViewerView {
        ResponseViewerView { response: None, body_display: Seq::empty(), active_tab: 0 }
    }

    /// The viewer with a response on show.
    pub open spec fn showing(response: ResponseDataView) -> ResponseViewerView {
        ResponseViewerView {
            response: Some(response),
            body_display: display_text(response.body),
            active_tab: 0,
        }
    }
}

/// The text in which a body is displayed.
pub fn display_body(body: &str) -> (text: String)
    ensures
        text@ == display_text(body@),
{
    match parse_json(body) {
        Ok(value) => match print_json(&value) {
            Ok(text) => text,
            Err(_) => body.to_owned(),
        },
        Err(_) => body.to_owned(),
    }
}

impl ResponseViewer {
    /// A viewer with nothing on show.
    pub fn new() -> (viewer: ResponseViewer)
        ensures
            viewer@ == ResponseViewerView::empty(),
    {
        ResponseViewer { response: None, body_display: String::new(), active_tab: 0 }
    }

    /// Puts a response on show, and turns to its body.
    pub fn set_response(&mut self, response: ResponseData)
        ensures
            final(self)@ == ResponseViewerView::showing(response@),
    {
        self.body_display = display_body(response.body.as_str());
        self.response = Some(response);
        self.active_tab = 0;
    }

    /// The response on show.
    pub fn get_response(&self) -> (response: Option<ResponseData>)
        ensures
            response_view(response) == self@.response,
    {
        clone_response(&self.response)
    }

    /// Takes the response off show.
    pub fn clear_response(&mut self)
        ensures
            final(self)@ == ResponseViewerView::empty(),
    {
        self.response = None;
        self.body_display = String::new();
        self.active_tab = 0;
    }

    /// Turns to the body or to the headers.
    pub fn set_active_tab(&mut self, index: usize)
        ensures
            final(self)@ == (ResponseViewerView { active_tab: index, ..old(self)@ }),
    {
        self.active_tab = index;
    }
}

/// How the status of a response is to be regarded.
pub fn status_tone(response: &ResponseData) -> (tone: StatusTone)
    ensures
        tone == tone_of(response.status),
{
    if response.is_network_error() {
        StatusTone::Danger
    } else if response.is_success() {
        StatusTone::Success
    } else if response.is_error() {
        StatusTone::Danger
    } else {
        StatusTone::Neutral
    }
}

/// The status of a response as the status bar writes it.
pub fn status_line(response: &ResponseData) -> (line: String)
    ensures
        line@ == status_line_text(response.status),
{
    match response.status {
        None => concat("ERROR - ", response.status_text()),
        Some(code) => {
            let mut line = decimal(code as u64);
            line.push(' ');
            line.append(response.status_text());
            line
        },
    }
}

/// The duration of a response as the status bar writes it.
pub fn time_line(response: &ResponseData) -> (line: String)
    ensures
        line@ == "Time: "@ + decimal_text(response.duration_ms as nat) + " ms"@,
{
    let mut line = concat("Time: ", decimal(response.duration_ms).as_str());
    line.append(" ms");
    line
}

/// The size of the body of a response as the status bar writes it; a
/// response that never arrived has none.
pub fn size_line(response: &ResponseData) -> (line: Option<String>)
    ensures
        response.status is None ==> line is None,
        response.status is Some ==> (line matches Some(text) && text@ == "Size: "@ + decimal_text(
            (vstd::utf8::encode_utf8(response.body@).len() as usize) as nat,
        ) + " bytes"@),
{
    if response.is_network_error() {
        None
    } else {
        let mut line = concat("Size: ", decimal(response.body.as_str().len() as u64).as_str());
        line.append(" bytes");
        Some(line)
    }
}

} // verus!
