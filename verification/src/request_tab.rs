//! A request tab: a request, the title shown for it, and the table rows
//! kept for it while another tab is shown.

use vstd::prelude::*;
use vstd::string::StringExecFns;

use crate::text::{find_between, string_of_range, to_chars};
use crate::types::{
    clone_header_states, clone_param_states, header_states_view, param_states_view,
    BodyTypeView, HeaderState, HeaderStateView, HistoryItem, HttpMethod, ParamState,
    ParamStateView, RequestData, RequestDataView,
};
use crate::url_params::base_of;

verus! {

/// A single request tab.
#[derive(Debug)]
pub struct RequestTab {
    pub id: usize,
    pub title: String,
    pub request: RequestData,
    pub params_state: Option<Vec<ParamState>>,
    pub headers_state: Option<Vec<HeaderState>>,
}

/// A tab as plain text.
pub struct RequestTabView {
    pub id: usize,
    pub title: Seq<char>,
    pub request: RequestDataView,
    pub params_state: Option<Seq<ParamStateView>>,
    pub headers_state: Option<Seq<HeaderStateView>>,
}

/// The view of parameter rows that may not have been kept.
pub open spec fn kept_params_view(rows: Option<Vec<ParamState>>) -> Option<Seq<ParamStateView>> {
    match rows {
        Some(rows) => Some(param_states_view(rows@)),
        None => None,
    }
}

/// The view of header rows that may not have been kept.
pub open spec fn kept_headers_view(rows: Option<Vec<HeaderState>>) -> Option<
    Seq<HeaderStateView>,
> {
    match rows {
        Some(rows) => Some(header_states_view(rows@)),
        None => None,
    }
}

impl View for RequestTab {
    type V = RequestTabView;

    open spec fn view(&self) -> RequestTabView {
        RequestTabView {
            id: self.id,
            title: self.title@,
            request: self.request@,
            params_state: kept_params_view(self.params_state),
            headers_state: kept_headers_view(self.headers_state),
        }
    }
}

impl Clone for RequestTab {
    fn clone(&self) -> (copy: RequestTab)
        ensures
            copy@ == self@,
    {
        RequestTab {
            id: self.id,
            title: self.title.clone(),
            request: self.request.clone(),
            params_state: match &self.params_state {
                Some(rows) => Some(clone_param_states(rows)),
                None => None,
            },
            headers_state: match &self.headers_state {
                Some(rows) => Some(clone_header_states(rows)),
                None => None,
            },
        }
    }
}

/// What follows the last `/` of a text; all of it where it has none.
pub open spec fn last_segment(s: Seq<char>) -> Seq<char>
    decreases s.len(),
{
    if s.len() == 0 {
        s
    } else if s.last() == '/' {
        Seq::empty()
    } else {
        last_segment(s.drop_last()).push(s.last())
    }
}

/// The title of a request: `New Request` for an empty address; else the
/// method and the last path segment of the address without its query, or
/// `Untitled` where that segment is empty.
pub open spec fn title_of(request: RequestDataView) -> Seq<char> {
    if request.url.len() == 0 {
        "New Request"@
    } else {
        let segment = last_segment(base_of(request.url));
        request.method.name_text() + seq![' '] + if segment.len() == 0 {
            "Untitled"@
        } else {
            segment
        }
    }
}

/// A stretch without `/` that ends the text, and starts it or follows a
/// `/`, is the last segment.
proof fn lemma_last_segment_is(s: Seq<char>, start: int)
    requires
        0 <= start <= s.len(),
        forall|j: int| start <= j < s.len() ==> s[j] != '/',
        start > 0 ==> s[start - 1] == '/',
    ensures
        last_segment(s) == s.skip(start),
    decreases s.len(),
{
    if s.len() == 0 {
        assert(s.skip(start) =~= s);
    } else if start == s.len() {
        assert(s.skip(start) =~= Seq::empty());
    } else {
        lemma_last_segment_is(s.drop_last(), start);
        assert(s.drop_last().skip(start).push(s.last()) =~= s.skip(start));
    }
}

impl RequestTab {
    /// A tab for a request that is yet to be written.
    pub fn new_empty(id: usize) -> (tab: RequestTab)
        ensures
            tab@ == (RequestTabView {
                id,
                title: "New Request"@,
                request: RequestDataView {
                    method: HttpMethod::GET,
                    url: Seq::empty(),
                    headers: Seq::empty(),
                    body: BodyTypeView::initial(),
                },
                params_state: None,
                headers_state: None,
            }),
    {
        let tab = RequestTab {
            id,
            title: "New Request".to_owned(),
            request: RequestData::new(HttpMethod::GET, String::new()),
            params_state: None,
            headers_state: None,
        };
        tab
    }

    /// A tab for a request taken from the history.
    pub fn from_history(id: usize, item: &HistoryItem) -> (tab: RequestTab)
        ensures
            tab@ == (RequestTabView {
                id,
                title: title_of(item@.request),
                request: item@.request,
                params_state: None,
                headers_state: None,
            }),
    {
        RequestTab {
            id,
            title: Self::generate_title(&item.request),
            request: item.request.clone(),
            params_state: None,
            headers_state: None,
        }
    }

    /// A tab for a given request.
    pub fn from_request(id: usize, request: RequestData) -> (tab: RequestTab)
        ensures
            tab@ == (RequestTabView {
                id,
                title: title_of(request@),
                request: request@,
                params_state: None,
                headers_state: None,
            }),
    {
        RequestTab {
            id,
            title: Self::generate_title(&request),
            request,
            params_state: None,
            headers_state: None,
        }
    }

    /// The title shown for a request.
    pub fn generate_title(request: &RequestData) -> (title: String)
        ensures
            title@ == title_of(request@),
    {
        if request.url.as_str().is_empty() {
            return "New Request".to_owned();
        }
        let chars = to_chars(request.url.as_str());
        let end = find_between(&chars, 0, chars.len(), '?');
        assert(chars@.subrange(0, chars.len() as int) =~= request.url@);
        let ghost base = base_of(request.url@);
        assert(base =~= chars@.subrange(0, end as int));
        let mut start: usize = end;
        while start > 0 && chars[start - 1] != '/'
            invariant
                start <= end <= chars.len(),
                forall|j: int| start <= j < end ==> chars@[j] != '/',
            decreases start,
        {
            start -= 1;
        }
        proof {
            lemma_last_segment_is(base, start as int);
            assert(base.skip(start as int) =~= chars@.subrange(start as int, end as int));
        }
        let mut title = request.method.as_str().to_owned();
        title.push(' ');
        if start == end {
            title.append("Untitled");
        } else {
            let segment = string_of_range(&chars, start, end);
            title.append(segment.as_str());
        }
        title
    }

    /// Brings the title up to date with the request.
    pub fn update_title(&mut self)
        ensures
            final(self)@ == (RequestTabView { title: title_of(old(self)@.request), ..old(self)@ }),
    {
        self.title = Self::generate_title(&self.request);
    }
}

} // verus!
