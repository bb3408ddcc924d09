//! The state of a request editor: the address, the method, the header and
//! parameter tables and the body. The tables have modules of their own:
//! `param_sync` for the parameters and their tie to the address,
//! `header_table` for the headers, `send_request` for what is sent.

use vstd::prelude::*;

use crate::body_editor::{BodyEditor, BodyEditorView};
use crate::header_table::{
    blank_header, header_pairs, predefined_rows, slot_is_taken, with_loaded_headers,
};
use crate::text::{pair_view, pairs_view};
use crate::types::{
    header_states_view, param_states_view, HeaderState, HeaderStateView, HeaderType, HttpMethod,
    ParamState, ParamStateView, RequestData, RequestDataView, ResponseData,
};

verus! {

/// Which projection is being rebuilt from the other, if any.
#[derive(Debug, Clone, Copy, PartialEq, Eq, Structural)]
pub enum SyncPhase {
    /// Nothing is under way: an edit of either projection rebuilds the other.
    Idle,
    /// The parameter rows are being rebuilt from the address.
    SyncingFromUrl,
    /// The address was rebuilt from the parameter rows, and the change that
    /// this write announces has yet to pass.
    SyncingFromParams,
}

/// The state of a request editor.
#[derive(Debug)]
pub struct RequestEditor {
    /// The text of the address field.
    pub url: String,
    /// The row chosen in the selector of methods.
    pub method_index: usize,
    pub body_editor: BodyEditor,
    pub headers: Vec<HeaderState>,
    pub params: Vec<ParamState>,
    /// The table shown: parameters, headers or body.
    pub active_tab: usize,
    /// Whether a request is on its way.
    pub loading: bool,
    pub sync: SyncPhase,
    /// The address from which the parameter rows were last read.
    pub last_parsed_url: String,
}

/// A request editor as plain text.
pub struct RequestEditorView {
    pub url: Seq<char>,
    pub method_index: usize,
    pub body_editor: BodyEditorView,
    pub headers: Seq<HeaderStateView>,
    pub params: Seq<ParamStateView>,
    pub active_tab: usize,
    pub loading: bool,
    pub sync: SyncPhase,
    pub last_parsed_url: Seq<char>,
}

impl View for RequestEditor {
    type V = RequestEditorView;

    open spec fn view(&self) -> RequestEditorView {
        RequestEditorView {
            url: self.url@,
            method_index: self.method_index,
            body_editor: self.body_editor@,
            headers: header_states_view(self.headers@),
            params: param_states_view(self.params@),
            active_tab: self.active_tab,
            loading: self.loading,
            sync: self.sync,
            last_parsed_url: self.last_parsed_url@,
        }
    }
}

/// The method at a row of the selector; the first one for a row that the
/// selector does not have.
pub open spec fn method_at(index: usize) -> HttpMethod {
    if index < HttpMethod::all_spec().len() {
        HttpMethod::all_spec()[index as int]
    } else {
        HttpMethod::GET
    }
}

/// The row of a method in the selector.
pub open spec fn method_position(method: HttpMethod) -> usize {
    match method {
        HttpMethod::GET => 0,
        HttpMethod::POST => 1,
        HttpMethod::PUT => 2,
        HttpMethod::DELETE => 3,
        HttpMethod::PATCH => 4,
        HttpMethod::HEAD => 5,
        HttpMethod::OPTIONS => 6,
    }
}

/// Whether a header row belongs to the request as the editor shows it: it
/// is enabled, and is not a custom row without a name.
pub open spec fn is_shown_header(row: HeaderStateView) -> bool {
    row.enabled && !(row.key.len() == 0 && row.header_type == HeaderType::Custom)
}

/// The headers of the request as the editor shows it.
pub open spec fn shown_headers(rows: Seq<HeaderStateView>) -> Seq<(Seq<char>, Seq<char>)> {
    header_pairs(rows.filter(|row: HeaderStateView| is_shown_header(row)))
}

/// The method at a row of the selector.
pub fn method_for_index(index: usize) -> (method: HttpMethod)
    ensures
        method == method_at(index),
{
    let all = HttpMethod::all();
    if index < all.len() {
        all[index]
    } else {
        HttpMethod::GET
    }
}

/// The row of a method in the selector.
pub fn index_of_method(method: HttpMethod) -> (index: usize)
    ensures
        index == method_position(method),
        method_at(index) == method,
{
    match method {
        HttpMethod::GET => 0,
        HttpMethod::POST => 1,
        HttpMethod::PUT => 2,
        HttpMethod::DELETE => 3,
        HttpMethod::PATCH => 4,
        HttpMethod::HEAD => 5,
        HttpMethod::OPTIONS => 6,
    }
}

/// A request and what came back for it.
#[derive(Debug)]
pub struct RequestCompleted {
    pub request: RequestData,
    pub response: ResponseData,
}

impl Clone for RequestCompleted {
    fn clone(&self) -> (copy: RequestCompleted)
        ensures
            copy.request@ == self.request@,
            copy.response@ == self.response@,
    {
        RequestCompleted { request: self.request.clone(), response: self.response.clone() }
    }
}

impl RequestEditorView {
    /// The editor as it starts: no address, the first method, the rows of
    /// the predefined headers and an empty custom one, a placeholder as the
    /// only parameter row.
    pub open spec fn initial() -> RequestEditorView {
        RequestEditorView {
            url: Seq::empty(),
            method_index: 0,
            body_editor: BodyEditorView::initial(),
            headers: predefined_rows().push(blank_header()),
            params: seq![ParamStateView::placeholder()],
            active_tab: 0,
            loading: false,
            sync: SyncPhase::Idle,
            last_parsed_url: Seq::empty(),
        }
    }

    /// The editor after a request was loaded into it: address, method and
    /// body are the request's; the header rows are those of the predefined
    /// headers with the request's headers loaded into them, and an empty
    /// custom row; the parameter rows are read from the new address.
    pub open spec fn after_load(self, request: RequestDataView) -> RequestEditorView {
        (RequestEditorView {
            url: request.url,
            method_index: method_position(request.method),
            body_editor: self.body_editor.with_body(request.body),
            headers: with_loaded_headers(predefined_rows(), request.headers).push(blank_header()),
            ..self
        }).after_url_change()
    }

    /// The request as the editor shows it.
    pub open spec fn current_request(self) -> RequestDataView {
        RequestDataView {
            method: method_at(self.method_index),
            url: self.url,
            headers: shown_headers(self.headers),
            body: self.body_editor.body(),
        }
    }
}

impl RequestEditor {
    /// An editor in its initial state.
    pub fn new() -> (editor: RequestEditor)
        ensures
            editor@ == RequestEditorView::initial(),
    {
        let mut editor = RequestEditor {
            url: String::new(),
            method_index: 0,
            body_editor: BodyEditor::new(),
            headers: Vec::new(),
            params: Vec::new(),
            active_tab: 0,
            loading: false,
            sync: SyncPhase::Idle,
            last_parsed_url: String::new(),
        };
        assert(editor@.headers =~= Seq::empty());
        editor.init_predefined_headers();
        assert(editor@.headers =~= predefined_rows());
        editor.add_custom_header_row();
        editor.add_param_row();
        assert(editor@.params =~= seq![ParamStateView::placeholder()]);
        editor
    }

    /// Another method was chosen.
    pub fn set_method_index(&mut self, index: usize)
        ensures
            final(self)@ == (RequestEditorView { method_index: index, ..old(self)@ }),
    {
        self.method_index = index;
    }

    /// Another table was chosen.
    pub fn set_active_tab(&mut self, index: usize)
        ensures
            final(self)@ == (RequestEditorView { active_tab: index, ..old(self)@ }),
    {
        self.active_tab = index;
    }

    /// Loads a request into the editor. Returns whether the parameter rows
    /// were replaced.
    pub fn load_request(&mut self, request: &RequestData) -> (rebuilt: bool)
        ensures
            final(self)@ == old(self)@.after_load(request@),
            rebuilt == (final(self)@.params != old(self)@.params),
    {
        self.url = request.url.clone();
        self.method_index = index_of_method(request.method);
        self.body_editor.set_body(&request.body);
        self.headers.clear();
        assert(self@.headers =~= Seq::empty());
        self.init_predefined_headers();
        assert(self@.headers =~= predefined_rows());
        let ghost loaded = pairs_view(request.headers@);
        let mut i: usize = 0;
        assert(loaded.take(0) =~= Seq::empty());
        while i < request.headers.len()
            invariant
                i <= request.headers.len(),
                loaded == pairs_view(request.headers@),
                self@ == (RequestEditorView {
                    url: request@.url,
                    method_index: method_position(request@.method),
                    body_editor: old(self)@.body_editor.with_body(request@.body),
                    headers: with_loaded_headers(predefined_rows(), loaded.take(i as int)),
                    ..old(self)@
                }),
            decreases request.headers.len() - i,
        {
            assert(loaded.take(i as int + 1).drop_last() =~= loaded.take(i as int));
            assert(loaded.take(i as int + 1).last() == pair_view(request.headers@[i as int]));
            let taken = slot_is_taken(&request.headers, i);
            self.load_header(request.headers[i].0.as_str(), request.headers[i].1.as_str(), taken);
            i += 1;
        }
        assert(loaded.take(request.headers.len() as int) =~= loaded);
        self.add_custom_header_row();
        self.parse_url_to_params()
    }

    /// The request as the editor shows it.
    pub fn get_current_request_data(&self) -> (request: RequestData)
        ensures
            request@ == self@.current_request(),
    {
        let ghost rows = self@.headers;
        let ghost pred = |row: HeaderStateView| is_shown_header(row);
        let mut headers: Vec<(String, String)> = Vec::new();
        let mut i: usize = 0;
        proof {
            reveal(Seq::filter);
            assert(rows.take(0) =~= Seq::empty());
            assert(pairs_view(headers@) =~= header_pairs(rows.take(0).filter(pred)));
        }
        while i < self.headers.len()
            invariant
                i <= self.headers.len(),
                rows == header_states_view(self.headers@),
                pred == |row: HeaderStateView| is_shown_header(row),
                pairs_view(headers@) == header_pairs(rows.take(i as int).filter(pred)),
            decreases self.headers.len() - i,
        {
            let row = &self.headers[i];
            let ghost before = pairs_view(headers@);
            proof {
                reveal(Seq::filter);
                assert(rows.take(i as int + 1).drop_last() =~= rows.take(i as int));
                assert(rows.take(i as int + 1).last() == row@);
            }
            if row.enabled && (!row.key.as_str().is_empty() || row.header_type
                != HeaderType::Custom) {
                headers.push((row.key.clone(), row.value.clone()));
                assert(pairs_view(headers@) =~= before.push((row@.key, row@.value)));
                assert(header_pairs(rows.take(i as int + 1).filter(pred)) =~= before.push(
                    (row@.key, row@.value),
                ));
            }
            i += 1;
        }
        assert(rows.take(self.headers.len() as int) =~= rows);
        RequestData {
            method: method_for_index(self.method_index),
            url: self.url.clone(),
            headers,
            body: self.body_editor.get_body(),
        }
    }
}

} // verus!
