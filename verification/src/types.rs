//! The data model: methods, headers, bodies, requests, responses and
//! history records, each with the plain-text view that contracts speak of.

use vstd::prelude::*;

use crate::text::{clone_pairs, pairs_view, same_text};

verus! {

/// How a header row may be edited.
#[derive(Debug, Clone, Copy, PartialEq, Eq, Structural)]
pub enum HeaderType {
    /// Always sent: it can be neither disabled nor deleted.
    Mandatory,
    /// Known in advance: it can be disabled, not deleted.
    Predefined,
    /// Written by the user: it can be disabled and deleted.
    Custom,
}

/// The headers that every request editor starts with.
#[derive(Debug, Clone, Copy, PartialEq, Eq, Structural)]
pub enum PredefinedHeader {
    CacheControl,
    ContentType,
    Accept,
    AcceptEncoding,
    UserAgent,
    Connection,
    ContentLength,
}

impl PredefinedHeader {
    /// The header's name on the wire.
    pub open spec fn name_text(self) -> Seq<char> {
        match self {
            PredefinedHeader::CacheControl => "Cache-Control"@,
            PredefinedHeader::ContentType => "Content-Type"@,
            PredefinedHeader::Accept => "Accept"@,
            PredefinedHeader::AcceptEncoding => "Accept-Encoding"@,
            PredefinedHeader::UserAgent => "User-Agent"@,
            PredefinedHeader::Connection => "Connection"@,
            PredefinedHeader::ContentLength => "Content-Length"@,
        }
    }

    /// The value that the header starts with.
    pub open spec fn default_text(self) -> Seq<char> {
        match self {
            PredefinedHeader::CacheControl => "no-cache"@,
            PredefinedHeader::ContentType => "application/json"@,
            PredefinedHeader::Accept => "*/*"@,
            PredefinedHeader::AcceptEncoding => "gzip, deflate, br"@,
            PredefinedHeader::UserAgent => "Poopman/1.0"@,
            PredefinedHeader::Connection => "keep-alive"@,
            PredefinedHeader::ContentLength => "0"@,
        }
    }

    /// How a row for this header may be edited.
    pub open spec fn kind(self) -> HeaderType {
        match self {
            PredefinedHeader::CacheControl => HeaderType::Mandatory,
            _ => HeaderType::Predefined,
        }
    }

    /// The predefined headers, in the order of their rows.
    pub open spec fn all_spec() -> Seq<PredefinedHeader> {
        seq![
            PredefinedHeader::CacheControl,
            PredefinedHeader::ContentType,
            PredefinedHeader::Accept,
            PredefinedHeader::AcceptEncoding,
            PredefinedHeader::UserAgent,
            PredefinedHeader::Connection,
            PredefinedHeader::ContentLength,
        ]
    }

    /// The header's name on the wire.
    pub fn name(&self) -> (name: &'static str)
        ensures
            name@ == self.name_text(),
    {
        match self {
            PredefinedHeader::CacheControl => "Cache-Control",
            PredefinedHeader::ContentType => "Content-Type",
            PredefinedHeader::Accept => "Accept",
            PredefinedHeader::AcceptEncoding => "Accept-Encoding",
            PredefinedHeader::UserAgent => "User-Agent",
            PredefinedHeader::Connection => "Connection",
            PredefinedHeader::ContentLength => "Content-Length",
        }
    }

    /// The value that the header starts with.
    pub fn default_value(&self) -> (value: &'static str)
        ensures
            value@ == self.default_text(),
    {
        match self {
            PredefinedHeader::CacheControl => "no-cache",
            PredefinedHeader::ContentType => "application/json",
            PredefinedHeader::Accept => "*/*",
            PredefinedHeader::AcceptEncoding => "gzip, deflate, br",
            PredefinedHeader::UserAgent => "Poopman/1.0",
            PredefinedHeader::Connection => "keep-alive",
            PredefinedHeader::ContentLength => "0",
        }
    }

    /// Whether the value is computed from the body before a request is sent.
    pub fn is_auto_calculated(&self) -> (auto: bool)
        ensures
            auto == (*self == PredefinedHeader::ContentLength),
    {
        matches!(self, PredefinedHeader::ContentLength)
    }

    /// How a row for this header may be edited.
    pub fn header_type(&self) -> (kind: HeaderType)
        ensures
            kind == self.kind(),
    {
        match self {
            PredefinedHeader::CacheControl => HeaderType::Mandatory,
            _ => HeaderType::Predefined,
        }
    }

    /// The predefined headers, in the order of their rows.
    pub fn all() -> (all: Vec<Self>)
        ensures
            all@ == Self::all_spec(),
    {
        let all = vec![
            PredefinedHeader::CacheControl,
            PredefinedHeader::ContentType,
            PredefinedHeader::Accept,
            PredefinedHeader::AcceptEncoding,
            PredefinedHeader::UserAgent,
            PredefinedHeader::Connection,
            PredefinedHeader::ContentLength,
        ];
        assert(all@ =~= Self::all_spec());
        all
    }
}

/// The HTTP methods that a request can use.
#[derive(Debug, Clone, Copy, PartialEq, Eq, Structural)]
pub enum HttpMethod {
    GET,
    POST,
    PUT,
    DELETE,
    PATCH,
    HEAD,
    OPTIONS,
}

/// The upper-case form of a text, as `str::to_uppercase` gives it.
pub uninterp spec fn unicode_uppercase(text: Seq<char>) -> Seq<char>;

/// `str::to_uppercase`: the upper-case form, by Unicode's rules, is a
/// function of the text alone.
pub assume_specification[ str::to_uppercase ](text: &str) -> (upper: String)
    ensures
        upper@ == unicode_uppercase(text@),
;

impl HttpMethod {
    /// The method's name.
    pub open spec fn name_text(self) -> Seq<char> {
        match self {
            HttpMethod::GET => "GET"@,
            HttpMethod::POST => "POST"@,
            HttpMethod::PUT => "PUT"@,
            HttpMethod::DELETE => "DELETE"@,
            HttpMethod::PATCH => "PATCH"@,
            HttpMethod::HEAD => "HEAD"@,
            HttpMethod::OPTIONS => "OPTIONS"@,
        }
    }

    /// The method that a name, written in upper case, stands for.
    pub open spec fn named(name: Seq<char>) -> Option<HttpMethod> {
        if name == "GET"@ {
            Some(HttpMethod::GET)
        } else if name == "POST"@ {
            Some(HttpMethod::POST)
        } else if name == "PUT"@ {
            Some(HttpMethod::PUT)
        } else if name == "DELETE"@ {
            Some(HttpMethod::DELETE)
        } else if name == "PATCH"@ {
            Some(HttpMethod::PATCH)
        } else if name == "HEAD"@ {
            Some(HttpMethod::HEAD)
        } else if name == "OPTIONS"@ {
            Some(HttpMethod::OPTIONS)
        } else {
            None
        }
    }

    /// The methods, in the order in which a selector lists them.
    pub open spec fn all_spec() -> Seq<HttpMethod> {
        seq![
            HttpMethod::GET,
            HttpMethod::POST,
            HttpMethod::PUT,
            HttpMethod::DELETE,
            HttpMethod::PATCH,
            HttpMethod::HEAD,
            HttpMethod::OPTIONS,
        ]
    }

    /// The method's name.
    pub fn as_str(&self) -> (name: &'static str)
        ensures
            name@ == self.name_text(),
    {
        match self {
            HttpMethod::GET => "GET",
            HttpMethod::POST => "POST",
            HttpMethod::PUT => "PUT",
            HttpMethod::DELETE => "DELETE",
            HttpMethod::PATCH => "PATCH",
            HttpMethod::HEAD => "HEAD",
            HttpMethod::OPTIONS => "OPTIONS",
        }
    }

    /// The methods, in the order in which a selector lists them.
    pub fn all() -> (all: Vec<Self>)
        ensures
            all@ == Self::all_spec(),
    {
        let all = vec![
            HttpMethod::GET,
            HttpMethod::POST,
            HttpMethod::PUT,
            HttpMethod::DELETE,
            HttpMethod::PATCH,
            HttpMethod::HEAD,
            HttpMethod::OPTIONS,
        ];
        assert(all@ =~= Self::all_spec());
        all
    }

    /// The method with exactly this upper-case name.
    pub fn from_upper(name: &str) -> (method: Option<Self>)
        ensures
            method == Self::named(name@),
    {
        if same_text(name, "GET") {
            Some(HttpMethod::GET)
        } else if same_text(name, "POST") {
            Some(HttpMethod::POST)
        } else if same_text(name, "PUT") {
            Some(HttpMethod::PUT)
        } else if same_text(name, "DELETE") {
            Some(HttpMethod::DELETE)
        } else if same_text(name, "PATCH") {
            Some(HttpMethod::PATCH)
        } else if same_text(name, "HEAD") {
            Some(HttpMethod::HEAD)
        } else if same_text(name, "OPTIONS") {
            Some(HttpMethod::OPTIONS)
        } else {
            None
        }
    }

    /// The method that a name stands for, whatever its case.
    pub fn from_str(s: &str) -> (method: Option<Self>)
        ensures
            method == Self::named(unicode_uppercase(s@)),
    {
        let upper = s.to_uppercase();
        Self::from_upper(upper.as_str())
    }

    /// Every method is the one that its own name stands for.
    pub proof fn lemma_named_name(self)
        ensures
            Self::named(self.name_text()) == Some(self),
    {
        reveal_strlit("GET");
        reveal_strlit("POST");
        reveal_strlit("PUT");
        reveal_strlit("DELETE");
        reveal_strlit("PATCH");
        reveal_strlit("HEAD");
        reveal_strlit("OPTIONS");
        assert("GET"@.len() == 3 && "GET"@[0] == 'G');
        assert("POST"@.len() == 4 && "POST"@[0] == 'P');
        assert("PUT"@.len() == 3 && "PUT"@[0] == 'P');
        assert("DELETE"@.len() == 6);
        assert("PATCH"@.len() == 5);
        assert("HEAD"@.len() == 4 && "HEAD"@[0] == 'H');
        assert("OPTIONS"@.len() == 7);
    }
}

/// The format of a raw body.
#[derive(Debug, Clone, Copy, PartialEq, Eq, Hash, Structural)]
pub enum RawSubtype {
    Json,
    Xml,
    Text,
    JavaScript,
}

impl RawSubtype {
    /// The name of the format, as a syntax highlighter knows it.
    pub open spec fn name_text(self) -> Seq<char> {
        match self {
            RawSubtype::Json => "json"@,
            RawSubtype::Xml => "xml"@,
            RawSubtype::Text => "text"@,
            RawSubtype::JavaScript => "javascript"@,
        }
    }

    /// The content type sent with a body of this format.
    pub open spec fn content_type_text(self) -> Seq<char> {
        match self {
            RawSubtype::Json => "application/json"@,
            RawSubtype::Xml => "application/xml"@,
            RawSubtype::Text => "text/plain"@,
            RawSubtype::JavaScript => "application/javascript"@,
        }
    }

    /// The formats, in the order in which a selector lists them.
    pub open spec fn all_spec() -> Seq<RawSubtype> {
        seq![RawSubtype::Json, RawSubtype::Xml, RawSubtype::Text, RawSubtype::JavaScript]
    }

    /// The name of the format, as a syntax highlighter knows it.
    pub fn as_str(&self) -> (name: &'static str)
        ensures
            name@ == self.name_text(),
    {
        match self {
            RawSubtype::Json => "json",
            RawSubtype::Xml => "xml",
            RawSubtype::Text => "text",
            RawSubtype::JavaScript => "javascript",
        }
    }

    /// The content type sent with a body of this format.
    pub fn content_type(&self) -> (content_type: &'static str)
        ensures
            content_type@ == self.content_type_text(),
    {
        match self {
            RawSubtype::Json => "application/json",
            RawSubtype::Xml => "application/xml",
            RawSubtype::Text => "text/plain",
            RawSubtype::JavaScript => "application/javascript",
        }
    }

    /// The formats, in the order in which a selector lists them.
    pub fn all() -> (all: Vec<Self>)
        ensures
            all@ == Self::all_spec(),
    {
        let all = vec![RawSubtype::Json, RawSubtype::Xml, RawSubtype::Text, RawSubtype::JavaScript];
        assert(all@ =~= Self::all_spec());
        all
    }
}

/// The value of a form-data row: a text, or the path of a file.
#[derive(Debug, PartialEq, Eq)]
pub enum FormDataValue {
    Text(String),
    File { path: String },
}

/// A form-data value as plain text.
pub enum FormDataValueView {
    Text(Seq<char>),
    File { path: Seq<char> },
}

impl View for FormDataValue {
    type V = FormDataValueView;

    open spec fn view(&self) -> FormDataValueView {
        match self {
            FormDataValue::Text(text) => FormDataValueView::Text(text@),
            FormDataValue::File { path } => FormDataValueView::File { path: path@ },
        }
    }
}

impl Clone for FormDataValue {
    fn clone(&self) -> (copy: FormDataValue)
        ensures
            copy@ == self@,
    {
        match self {
            FormDataValue::Text(text) => FormDataValue::Text(text.clone()),
            FormDataValue::File { path } => FormDataValue::File { path: path.clone() },
        }
    }
}

impl FormDataValueView {
    /// The string that the value carries, whichever kind it is.
    pub open spec fn content(self) -> Seq<char> {
        match self {
            FormDataValueView::Text(text) => text,
            FormDataValueView::File { path } => path,
        }
    }

    /// The value of the other kind with the same string.
    pub open spec fn toggled(self) -> FormDataValueView {
        match self {
            FormDataValueView::Text(text) => FormDataValueView::File { path: text },
            FormDataValueView::File { path } => FormDataValueView::Text(path),
        }
    }

    /// The value of the same kind with another string.
    pub open spec fn with_content(self, content: Seq<char>) -> FormDataValueView {
        match self {
            FormDataValueView::Text(_) => FormDataValueView::Text(content),
            FormDataValueView::File { .. } => FormDataValueView::File { path: content },
        }
    }
}

/// Turning a value into the other kind keeps its string; turning it twice
/// gives the value back.
pub proof fn lemma_toggle_keeps_content(value: FormDataValueView)
    ensures
        value.toggled().content() == value.content(),
        value.toggled().toggled() == value,
        (value is Text) != (value.toggled() is Text),
{
}

/// A row of a form-data body.
#[derive(Debug)]
pub struct FormDataRow {
    pub enabled: bool,
    pub key: String,
    pub value: FormDataValue,
}

/// A form-data row as plain text.
pub struct FormDataRowView {
    pub enabled: bool,
    pub key: Seq<char>,
    pub value: FormDataValueView,
}

impl View for FormDataRow {
    type V = FormDataRowView;

    open spec fn view(&self) -> FormDataRowView {
        FormDataRowView { enabled: self.enabled, key: self.key@, value: self.value@ }
    }
}

impl Clone for FormDataRow {
    fn clone(&self) -> (copy: FormDataRow)
        ensures
            copy@ == self@,
    {
        FormDataRow { enabled: self.enabled, key: self.key.clone(), value: self.value.clone() }
    }
}

/// The views of a list of form-data rows.
pub open spec fn rows_view(rows: Seq<FormDataRow>) -> Seq<FormDataRowView> {
    Seq::new(rows.len(), |i: int| rows[i]@)
}

/// A copy of a list of form-data rows.
pub fn clone_rows(rows: &Vec<FormDataRow>) -> (copy: Vec<FormDataRow>)
    ensures
        rows_view(copy@) == rows_view(rows@),
{
    let mut copy: Vec<FormDataRow> = Vec::new();
    let mut i: usize = 0;
    while i < rows.len()
        invariant
            i <= rows.len(),
            rows_view(copy@) == rows_view(rows@).take(i as int),
        decreases rows.len() - i,
    {
        let ghost before = rows_view(copy@);
        copy.push(rows[i].clone());
        assert(rows_view(copy@) =~= before.push(rows@[i as int]@));
        assert(rows_view(rows@).take(i as int + 1) =~= rows_view(rows@).take(i as int).push(
            rows@[i as int]@,
        ));
        i += 1;
    }
    assert(rows_view(rows@).take(rows.len() as int) =~= rows_view(rows@));
    copy
}

/// The body of a request.
#[derive(Debug)]
pub enum BodyType {
    /// No body at all.
    Empty,
    Raw { content: String, subtype: RawSubtype },
    FormData(Vec<FormDataRow>),
}

/// A body as plain text.
pub enum BodyTypeView {
    Empty,
    Raw { content: Seq<char>, subtype: RawSubtype },
    FormData(Seq<FormDataRowView>),
}

impl View for BodyType {
    type V = BodyTypeView;

    open spec fn view(&self) -> BodyTypeView {
        match self {
            BodyType::Empty => BodyTypeView::Empty,
            BodyType::Raw { content, subtype } => BodyTypeView::Raw {
                content: content@,
                subtype: *subtype,
            },
            BodyType::FormData(rows) => BodyTypeView::FormData(rows_view(rows@)),
        }
    }
}

impl Clone for BodyType {
    fn clone(&self) -> (copy: BodyType)
        ensures
            copy@ == self@,
    {
        match self {
            BodyType::Empty => BodyType::Empty,
            BodyType::Raw { content, subtype } => BodyType::Raw {
                content: content.clone(),
                subtype: *subtype,
            },
            BodyType::FormData(rows) => BodyType::FormData(clone_rows(rows)),
        }
    }
}

impl BodyTypeView {
    /// The body that a new request starts with: raw, empty, JSON.
    pub open spec fn initial() -> BodyTypeView {
        BodyTypeView::Raw { content: Seq::empty(), subtype: RawSubtype::Json }
    }
}

impl Default for BodyType {
    fn default() -> (body: BodyType)
        ensures
            body@ == BodyTypeView::initial(),
    {
        BodyType::Raw { content: String::new(), subtype: RawSubtype::Json }
    }
}

/// A request: method, address, headers in order, and body.
#[derive(Debug)]
pub struct RequestData {
    pub method: HttpMethod,
    pub url: String,
    pub headers: Vec<(String, String)>,
    pub body: BodyType,
}

/// A request as plain text.
pub struct RequestDataView {
    pub method: HttpMethod,
    pub url: Seq<char>,
    pub headers: Seq<(Seq<char>, Seq<char>)>,
    pub body: BodyTypeView,
}

impl View for RequestData {
    type V = RequestDataView;

    open spec fn view(&self) -> RequestDataView {
        RequestDataView {
            method: self.method,
            url: self.url@,
            headers: pairs_view(self.headers@),
            body: self.body@,
        }
    }
}

impl Clone for RequestData {
    fn clone(&self) -> (copy: RequestData)
        ensures
            copy@ == self@,
    {
        RequestData {
            method: self.method,
            url: self.url.clone(),
            headers: clone_pairs(&self.headers),
            body: self.body.clone(),
        }
    }
}

impl RequestData {
    /// A request without headers and with the initial body.
    pub fn new(method: HttpMethod, url: String) -> (request: RequestData)
        ensures
            request@ == (RequestDataView {
                method,
                url: url@,
                headers: Seq::empty(),
                body: BodyTypeView::initial(),
            }),
    {
        let request = RequestData { method, url, headers: Vec::new(), body: BodyType::default() };
        assert(pairs_view(request.headers@) =~= Seq::empty());
        request
    }
}

/// A response, or the record of a request that got none: `status` is `None`
/// where the transport failed before any response arrived.
#[derive(Debug)]
pub struct ResponseData {
    pub status: Option<u16>,
    pub duration_ms: u64,
    pub headers: Vec<(String, String)>,
    pub body: String,
}

/// A response as plain text.
pub struct ResponseDataView {
    pub status: Option<u16>,
    pub duration_ms: u64,
    pub headers: Seq<(Seq<char>, Seq<char>)>,
    pub body: Seq<char>,
}

impl View for ResponseData {
    type V = ResponseDataView;

    open spec fn view(&self) -> ResponseDataView {
        ResponseDataView {
            status: self.status,
            duration_ms: self.duration_ms,
            headers: pairs_view(self.headers@),
            body: self.body@,
        }
    }
}

impl Clone for ResponseData {
    fn clone(&self) -> (copy: ResponseData)
        ensures
            copy@ == self@,
    {
        ResponseData {
            status: self.status,
            duration_ms: self.duration_ms,
            headers: clone_pairs(&self.headers),
            body: self.body.clone(),
        }
    }
}

/// The label shown for a status.
pub open spec fn status_label(status: Option<u16>) -> Seq<char> {
    match status {
        Some(code) => if code == 200 {
            "OK"@
        } else if code == 201 {
            "Created"@
        } else if code == 204 {
            "No Content"@
        } else if code == 400 {
            "Bad Request"@
        } else if code == 401 {
            "Unauthorized"@
        } else if code == 403 {
            "Forbidden"@
        } else if code == 404 {
            "Not Found"@
        } else if code == 500 {
            "Internal Server Error"@
        } else if code == 502 {
            "Bad Gateway"@
        } else if code == 503 {
            "Service Unavailable"@
        } else {
            "Unknown"@
        },
        None => "Network Error"@,
    }
}

/// Whether a status is one of success: present and in `200..300`.
pub open spec fn status_is_success(status: Option<u16>) -> bool {
    status matches Some(code) && 200 <= code < 300
}

/// Whether a status is one of failure: absent, or 400 and above.
pub open spec fn status_is_error(status: Option<u16>) -> bool {
    match status {
        Some(code) => code >= 400,
        None => true,
    }
}

impl ResponseData {
    /// The label shown for the status.
    pub fn status_text(&self) -> (text: &'static str)
        ensures
            text@ == status_label(self.status),
    {
        match self.status {
            Some(200) => "OK",
            Some(201) => "Created",
            Some(204) => "No Content",
            Some(400) => "Bad Request",
            Some(401) => "Unauthorized",
            Some(403) => "Forbidden",
            Some(404) => "Not Found",
            Some(500) => "Internal Server Error",
            Some(502) => "Bad Gateway",
            Some(503) => "Service Unavailable",
            Some(_) => "Unknown",
            None => "Network Error",
        }
    }

    /// Whether the response tells of success: a status from 200 up to 300.
    pub fn is_success(&self) -> (success: bool)
        ensures
            success == status_is_success(self.status),
    {
        if let Some(status) = self.status {
            status >= 200 && status < 300
        } else {
            false
        }
    }

    /// Whether the response tells of failure: no status, or one from 400 on.
    pub fn is_error(&self) -> (error: bool)
        ensures
            error == status_is_error(self.status),
    {
        if let Some(status) = self.status {
            status >= 400
        } else {
            true
        }
    }

    /// Whether no response arrived at all.
    pub fn is_network_error(&self) -> (failed: bool)
        ensures
            failed == self.status.is_none(),
    {
        self.status.is_none()
    }
}

/// A response never counts as success and as failure at once, and one
/// without a status is a failure.
pub proof fn lemma_status_classes(status: Option<u16>)
    ensures
        !(status_is_success(status) && status_is_error(status)),
        status is None ==> status_is_error(status) && !status_is_success(status),
{
}

/// A request as the history keeps it, with the response where one was stored.
#[derive(Debug)]
pub struct HistoryItem {
    pub id: i64,
    pub timestamp: String,
    pub request: RequestData,
    pub response: Option<ResponseData>,
}

/// A history record as plain text.
pub struct HistoryItemView {
    pub id: i64,
    pub timestamp: Seq<char>,
    pub request: RequestDataView,
    pub response: Option<ResponseDataView>,
}

/// The view of a response that may be absent.
pub open spec fn response_view(response: Option<ResponseData>) -> Option<ResponseDataView> {
    match response {
        Some(r) => Some(r@),
        None => None,
    }
}

/// A copy of a response that may be absent.
pub fn clone_response(response: &Option<ResponseData>) -> (copy: Option<ResponseData>)
    ensures
        response_view(copy) == response_view(*response),
{
    match response {
        Some(r) => Some(r.clone()),
        None => None,
    }
}

impl View for HistoryItem {
    type V = HistoryItemView;

    open spec fn view(&self) -> HistoryItemView {
        HistoryItemView {
            id: self.id,
            timestamp: self.timestamp@,
            request: self.request@,
            response: response_view(self.response),
        }
    }
}

impl Clone for HistoryItem {
    fn clone(&self) -> (copy: HistoryItem)
        ensures
            copy@ == self@,
    {
        HistoryItem {
            id: self.id,
            timestamp: self.timestamp.clone(),
            request: self.request.clone(),
            response: clone_response(&self.response),
        }
    }
}

impl HistoryItem {
    /// A record with the given parts.
    pub fn new(
        id: i64,
        timestamp: String,
        request: RequestData,
        response: Option<ResponseData>,
    ) -> (item: HistoryItem)
        ensures
            item@ == (HistoryItemView {
                id,
                timestamp: timestamp@,
                request: request@,
                response: response_view(response),
            }),
    {
        HistoryItem { id, timestamp, request, response }
    }
}

/// A row of the parameter table as a tab keeps it while it is not shown.
#[derive(Debug)]
pub struct ParamState {
    pub enabled: bool,
    pub key: String,
    pub value: String,
}

/// A parameter row as plain text.
pub struct ParamStateView {
    pub enabled: bool,
    pub key: Seq<char>,
    pub value: Seq<char>,
}

impl View for ParamState {
    type V = ParamStateView;

    open spec fn view(&self) -> ParamStateView {
        ParamStateView { enabled: self.enabled, key: self.key@, value: self.value@ }
    }
}

impl Clone for ParamState {
    fn clone(&self) -> (copy: ParamState)
        ensures
            copy@ == self@,
    {
        ParamState { enabled: self.enabled, key: self.key.clone(), value: self.value.clone() }
    }
}

impl ParamStateView {
    /// An enabled row without key or value: the row that waits for input.
    pub open spec fn placeholder() -> ParamStateView {
        ParamStateView { enabled: true, key: Seq::empty(), value: Seq::empty() }
    }

    /// Whether the row holds neither key nor value.
    pub open spec fn is_blank(self) -> bool {
        self.key.len() == 0 && self.value.len() == 0
    }
}

/// The views of a list of parameter rows.
pub open spec fn param_states_view(rows: Seq<ParamState>) -> Seq<ParamStateView> {
    Seq::new(rows.len(), |i: int| rows[i]@)
}

/// A copy of a list of parameter rows.
pub fn clone_param_states(rows: &Vec<ParamState>) -> (copy: Vec<ParamState>)
    ensures
        param_states_view(copy@) == param_states_view(rows@),
{
    let mut copy: Vec<ParamState> = Vec::new();
    let mut i: usize = 0;
    while i < rows.len()
        invariant
            i <= rows.len(),
            param_states_view(copy@) == param_states_view(rows@).take(i as int),
        decreases rows.len() - i,
    {
        let ghost before = param_states_view(copy@);
        copy.push(rows[i].clone());
        assert(param_states_view(copy@) =~= before.push(rows@[i as int]@));
        assert(param_states_view(rows@).take(i as int + 1) =~= param_states_view(rows@).take(
            i as int,
        ).push(rows@[i as int]@));
        i += 1;
    }
    assert(param_states_view(rows@).take(rows.len() as int) =~= param_states_view(rows@));
    copy
}

/// A row of the header table as a tab keeps it while it is not shown.
#[derive(Debug)]
pub struct HeaderState {
    pub enabled: bool,
    pub key: String,
    pub value: String,
    pub header_type: HeaderType,
    pub predefined: Option<PredefinedHeader>,
}

/// A header row as plain text.
pub struct HeaderStateView {
    pub enabled: bool,
    pub key: Seq<char>,
    pub value: Seq<char>,
    pub header_type: HeaderType,
    pub predefined: Option<PredefinedHeader>,
}

impl View for HeaderState {
    type V = HeaderStateView;

    open spec fn view(&self) -> HeaderStateView {
        HeaderStateView {
            enabled: self.enabled,
            key: self.key@,
            value: self.value@,
            header_type: self.header_type,
            predefined: self.predefined,
        }
    }
}

impl Clone for HeaderState {
    fn clone(&self) -> (copy: HeaderState)
        ensures
            copy@ == self@,
    {
        HeaderState {
            enabled: self.enabled,
            key: self.key.clone(),
            value: self.value.clone(),
            header_type: self.header_type,
            predefined: self.predefined,
        }
    }
}

impl HeaderStateView {
    /// The row that a predefined header starts with: enabled, with its
    /// name and its default value.
    pub open spec fn of_predefined(header: PredefinedHeader) -> HeaderStateView {
        HeaderStateView {
            enabled: true,
            key: header.name_text(),
            value: header.default_text(),
            header_type: header.kind(),
            predefined: Some(header),
        }
    }

    /// An enabled custom row with the given name and value.
    pub open spec fn custom(key: Seq<char>, value: Seq<char>) -> HeaderStateView {
        HeaderStateView {
            enabled: true,
            key,
            value,
            header_type: HeaderType::Custom,
            predefined: None,
        }
    }
}

impl HeaderState {
    /// Whether the switch of the row is locked: a mandatory header is always sent.
    pub fn is_locked(&self) -> (locked: bool)
        ensures
            locked == (self.header_type == HeaderType::Mandatory),
    {
        self.header_type == HeaderType::Mandatory
    }

    /// Whether the name of the row is fixed: only a custom header is named
    /// by the user.
    pub fn has_fixed_key(&self) -> (fixed: bool)
        ensures
            fixed == (self.header_type != HeaderType::Custom),
    {
        self.header_type != HeaderType::Custom
    }

    /// Whether the value of the row is computed before a request is sent,
    /// so that it is not for the user to edit.
    pub fn has_computed_value(&self) -> (computed: bool)
        ensures
            computed == (self.predefined == Some(PredefinedHeader::ContentLength)),
    {
        match self.predefined {
            Some(header) => header.is_auto_calculated(),
            None => false,
        }
    }

    /// Whether the row can be deleted: only a custom header can.
    pub fn is_removable(&self) -> (removable: bool)
        ensures
            removable == (self.header_type == HeaderType::Custom),
    {
        self.header_type == HeaderType::Custom
    }
}

/// The views of a list of header rows.
pub open spec fn header_states_view(rows: Seq<HeaderState>) -> Seq<HeaderStateView> {
    Seq::new(rows.len(), |i: int| rows[i]@)
}

/// A copy of a list of header rows.
pub fn clone_header_states(rows: &Vec<HeaderState>) -> (copy: Vec<HeaderState>)
    ensures
        header_states_view(copy@) == header_states_view(rows@),
{
    let mut copy: Vec<HeaderState> = Vec::new();
    let mut i: usize = 0;
    while i < rows.len()
        invariant
            i <= rows.len(),
            header_states_view(copy@) == header_states_view(rows@).take(i as int),
        decreases rows.len() - i,
    {
        let ghost before = header_states_view(copy@);
        copy.push(rows[i].clone());
        assert(header_states_view(copy@) =~= before.push(rows@[i as int]@));
        assert(header_states_view(rows@).take(i as int + 1) =~= header_states_view(rows@).take(
            i as int,
        ).push(rows@[i as int]@));
        i += 1;
    }
    assert(header_states_view(rows@).take(rows.len() as int) =~= header_states_view(rows@));
    copy
}

} // verus!
