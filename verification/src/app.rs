//! The state of the whole window: the open tabs, the editor and the viewer
//! that show the active one, the history panel and the tab bar.

use vstd::prelude::*;

use crate::history_panel::HistoryPanel;
use crate::param_sync::filled_rows;
use crate::request_editor::{RequestCompleted, RequestEditor, RequestEditorView};
use crate::request_tab::{title_of, RequestTab, RequestTabView};
use crate::response_viewer::{ResponseViewer, ResponseViewerView};
use crate::tab_bar::{tabs_view, TabBar};
use crate::types::{
    clone_response, response_view, BodyTypeView, HistoryItem, HistoryItemView, HttpMethod,
    RequestDataView, ResponseData, ResponseDataView,
};

verus! {

/// An open tab: the tab itself, the response last seen in it, and the
/// history record from which it was opened, if it was.
#[derive(Debug)]
pub struct OpenTab {
    pub tab: RequestTab,
    pub response: Option<ResponseData>,
    pub history_id: Option<i64>,
}

/// An open tab as plain text.
pub struct OpenTabView {
    pub tab: RequestTabView,
    pub response: Option<ResponseDataView>,
    pub history_id: Option<i64>,
}

impl View for OpenTab {
    type V = OpenTabView;

    open spec fn view(&self) -> OpenTabView {
        OpenTabView {
            tab: self.tab@,
            response: response_view(self.response),
            history_id: self.history_id,
        }
    }
}

impl Clone for OpenTab {
    fn clone(&self) -> (copy: OpenTab)
        ensures
            copy@ == self@,
    {
        OpenTab {
            tab: self.tab.clone(),
            response: clone_response(&self.response),
            history_id: self.history_id,
        }
    }
}

/// The views of a list of open tabs.
pub open spec fn open_tabs_view(tabs: Seq<OpenTab>) -> Seq<OpenTabView> {
    Seq::new(tabs.len(), |i: int| tabs[i]@)
}

/// The tabs as the tab bar shows them.
pub open spec fn bar_tabs(tabs: Seq<OpenTabView>) -> Seq<RequestTabView> {
    Seq::new(tabs.len(), |i: int| tabs[i].tab)
}

/// A tab for a request that is yet to be written.
pub open spec fn blank_tab(id: usize) -> OpenTabView {
    OpenTabView {
        tab: RequestTabView {
            id,
            title: "New Request"@,
            request: RequestDataView {
                method: HttpMethod::GET,
                url: Seq::empty(),
                headers: Seq::empty(),
                body: BodyTypeView::initial(),
            },
            params_state: None,
            headers_state: None,
        },
        response: None,
        history_id: None,
    }
}

/// A tab opened from a record of the history.
pub open spec fn history_tab(id: usize, item: HistoryItemView) -> OpenTabView {
    OpenTabView {
        tab: RequestTabView {
            id,
            title: title_of(item.request),
            request: item.request,
            params_state: None,
            headers_state: None,
        },
        response: item.response,
        history_id: Some(item.id),
    }
}

/// A tab once the editor and the viewer were saved into it: it keeps its
/// identifier and its origin, and takes the request, the table rows and the
/// response on show; the title follows the request.
pub open spec fn saved_tab(
    tab: OpenTabView,
    editor: RequestEditorView,
    viewer: ResponseViewerView,
) -> OpenTabView {
    OpenTabView {
        tab: RequestTabView {
            id: tab.tab.id,
            title: title_of(editor.current_request()),
            request: editor.current_request(),
            params_state: Some(filled_rows(editor.params)),
            headers_state: Some(editor.headers),
        },
        response: viewer.response,
        history_id: tab.history_id,
    }
}

/// A tab once a request was completed in it.
pub open spec fn completed_tab(
    tab: OpenTabView,
    request: RequestDataView,
    response: ResponseDataView,
) -> OpenTabView {
    OpenTabView {
        tab: RequestTabView { title: title_of(request), request, ..tab.tab },
        response: Some(response),
        history_id: tab.history_id,
    }
}

/// The editor once a tab was loaded into it: the request first, then the
/// table rows that the tab kept, where it kept any.
pub open spec fn editor_for(editor: RequestEditorView, tab: RequestTabView) -> RequestEditorView {
    let loaded = editor.after_load(tab.request);
    let with_params = match tab.params_state {
        Some(rows) => if rows.len() > 0 {
            loaded.after_params_state(rows)
        } else {
            loaded
        },
        None => loaded,
    };
    match tab.headers_state {
        Some(rows) => if rows.len() > 0 {
            with_params.after_headers_state(rows)
        } else {
            with_params
        },
        None => with_params,
    }
}

/// The viewer that shows a response, or nothing.
pub open spec fn viewer_for(response: Option<ResponseDataView>) -> ResponseViewerView {
    match response {
        Some(response) => ResponseViewerView::showing(response),
        None => ResponseViewerView::empty(),
    }
}

/// The position of the first tab opened from a record; the number of tabs
/// where none was.
pub open spec fn history_position(tabs: Seq<OpenTabView>, id: i64) -> int
    decreases tabs.len(),
{
    if tabs.len() == 0 {
        0
    } else if tabs[0].history_id == Some(id) {
        0
    } else {
        1 + history_position(tabs.drop_first(), id)
    }
}

/// The index of the active tab after the tab at `index` was removed from
/// `count` tabs, more than one: it follows its tab; and where the active tab
/// itself went, its place is taken by the next tab, or by the last one.
pub open spec fn active_after_close(active: int, index: int, count: int) -> int {
    if index < active {
        active - 1
    } else if index == active && active >= count - 1 {
        count - 2
    } else {
        active
    }
}

/// The state of the window.
#[derive(Debug)]
pub struct PoopmanApp {
    pub history_panel: HistoryPanel,
    pub request_editor: RequestEditor,
    pub response_viewer: ResponseViewer,
    pub tab_bar: TabBar,
    pub request_tabs: Vec<OpenTab>,
    pub active_tab_index: usize,
    pub next_tab_id: usize,
}

impl PoopmanApp {
    /// There is a tab, and the active one is among the tabs.
    pub open spec fn wf(&self) -> bool {
        self.request_tabs@.len() > 0 && self.active_tab_index < self.request_tabs@.len()
    }

    /// The open tabs as plain text.
    pub open spec fn tabs(&self) -> Seq<OpenTabView> {
        open_tabs_view(self.request_tabs@)
    }

    /// Whether the tab bar shows the open tabs and the active one.
    pub open spec fn bar_in_step(&self) -> bool {
        tabs_view(self.tab_bar.tabs@) == bar_tabs(self.tabs()) && self.tab_bar.active_tab_index
            == self.active_tab_index
    }

    /// A window with one blank tab, a fresh editor and viewer, and the
    /// history as it was loaded. The tab bar shows nothing yet.
    pub fn new(history: Vec<HistoryItem>) -> (app: PoopmanApp)
        ensures
            app.wf(),
            app.tabs() == seq![blank_tab(0)],
            app.active_tab_index == 0,
            app.next_tab_id == 1,
            app.request_editor@ == RequestEditorView::initial(),
            app.response_viewer@ == ResponseViewerView::empty(),
            app.history_panel.history == history,
            app.history_panel.selected_id is None,
            app.tab_bar.tabs@.len() == 0,
            app.tab_bar.active_tab_index == 0,
    {
        let mut request_tabs: Vec<OpenTab> = Vec::new();
        request_tabs.push(OpenTab { tab: RequestTab::new_empty(0), response: None, history_id: None });
        assert(open_tabs_view(request_tabs@) =~= seq![blank_tab(0)]);
        PoopmanApp {
            history_panel: HistoryPanel::new(history),
            request_editor: RequestEditor::new(),
            response_viewer: ResponseViewer::new(),
            tab_bar: TabBar::new(),
            request_tabs,
            active_tab_index: 0,
            next_tab_id: 1,
        }
    }

    /// Brings the tab bar in step with the open tabs.
    pub fn update_tab_bar(&mut self)
        ensures
            final(self).bar_in_step(),
            final(self).request_tabs == old(self).request_tabs,
            final(self).active_tab_index == old(self).active_tab_index,
            final(self).next_tab_id == old(self).next_tab_id,
            final(self).request_editor == old(self).request_editor,
            final(self).response_viewer == old(self).response_viewer,
            final(self).history_panel == old(self).history_panel,
    {
        let mut shown: Vec<RequestTab> = Vec::new();
        let mut i: usize = 0;
        while i < self.request_tabs.len()
            invariant
                i <= self.request_tabs.len(),
                *self == *old(self),
                tabs_view(shown@) == bar_tabs(self.tabs()).take(i as int),
            decreases self.request_tabs.len() - i,
        {
            let ghost before = tabs_view(shown@);
            shown.push(self.request_tabs[i].tab.clone());
            assert(tabs_view(shown@) =~= before.push(self.request_tabs@[i as int].tab@));
            assert(bar_tabs(self.tabs()).take(i as int + 1) =~= bar_tabs(self.tabs()).take(
                i as int,
            ).push(self.request_tabs@[i as int].tab@));
            i += 1;
        }
        assert(bar_tabs(self.tabs()).take(self.request_tabs.len() as int) =~= bar_tabs(
            self.tabs(),
        ));
        self.tab_bar.update_tabs(shown, self.active_tab_index);
    }

    /// Saves the editor and the viewer into the active tab.
    pub fn save_current_tab_state(&mut self)
        requires
            old(self).wf(),
        ensures
            final(self).wf(),
            final(self).tabs() == old(self).tabs().update(
                old(self).active_tab_index as int,
                saved_tab(
                    old(self).tabs()[old(self).active_tab_index as int],
                    old(self).request_editor@,
                    old(self).response_viewer@,
                ),
            ),
            final(self).active_tab_index == old(self).active_tab_index,
            final(self).next_tab_id == old(self).next_tab_id,
            final(self).request_editor == old(self).request_editor,
            final(self).response_viewer == old(self).response_viewer,
            final(self).history_panel == old(self).history_panel,
            final(self).tab_bar == old(self).tab_bar,
    {
        let active = self.active_tab_index;
        let request = self.request_editor.get_current_request_data();
        let params_state = self.request_editor.get_params_state();
        let headers_state = self.request_editor.get_headers_state();
        let response = self.response_viewer.get_response();
        let saved = OpenTab {
            tab: RequestTab {
                id: self.request_tabs[active].tab.id,
                title: RequestTab::generate_title(&request),
                request,
                params_state: Some(params_state),
                headers_state: Some(headers_state),
            },
            response,
            history_id: self.request_tabs[active].history_id,
        };
        self.request_tabs.set(active, saved);
        assert(self.tabs() =~= old(self).tabs().update(
            active as int,
            saved_tab(
                old(self).tabs()[active as int],
                old(self).request_editor@,
                old(self).response_viewer@,
            ),
        ));
    }

    /// Loads the active tab into the editor and the viewer.
    fn show_active_tab(&mut self)
        requires
            old(self).wf(),
        ensures
            final(self).request_editor@ == editor_for(
                old(self).request_editor@,
                old(self).tabs()[old(self).active_tab_index as int].tab,
            ),
            final(self).response_viewer@ == viewer_for(
                old(self).tabs()[old(self).active_tab_index as int].response,
            ),
            final(self).request_tabs == old(self).request_tabs,
            final(self).active_tab_index == old(self).active_tab_index,
            final(self).next_tab_id == old(self).next_tab_id,
            final(self).history_panel == old(self).history_panel,
            final(self).tab_bar == old(self).tab_bar,
    {
        let active = self.active_tab_index;
        self.request_editor.load_request(&self.request_tabs[active].tab.request);
        match &self.request_tabs[active].tab.params_state {
            Some(rows) => {
                if rows.len() > 0 {
                    self.request_editor.load_params_state(rows);
                }
            },
            None => {},
        }
        match &self.request_tabs[active].tab.headers_state {
            Some(rows) => {
                if rows.len() > 0 {
                    self.request_editor.load_headers_state(rows);
                }
            },
            None => {},
        }
        match &self.request_tabs[active].response {
            Some(response) => {
                self.response_viewer.set_response(response.clone());
            },
            None => {
                self.response_viewer.clear_response();
            },
        }
    }

    /// Whether `after` is the window once it turned from `self` to the tab
    /// at `index`: nothing changed where that tab is the active one or is not
    /// there; else the tab that was active was saved, the other one is active
    /// and loaded into the editor and the viewer, and the tab bar is in step.
    pub open spec fn turned_to(&self, index: usize, after: &PoopmanApp) -> bool {
        if index >= self.request_tabs@.len() || index == self.active_tab_index {
            *after == *self
        } else {
            &&& after.next_tab_id == self.next_tab_id
            &&& after.history_panel == self.history_panel
            &&& after.active_tab_index == index
            &&& after.tabs() == self.tabs().update(
                self.active_tab_index as int,
                saved_tab(
                    self.tabs()[self.active_tab_index as int],
                    self.request_editor@,
                    self.response_viewer@,
                ),
            )
            &&& after.request_editor@ == editor_for(
                self.request_editor@,
                self.tabs()[index as int].tab,
            )
            &&& after.response_viewer@ == viewer_for(self.tabs()[index as int].response)
            &&& after.bar_in_step()
        }
    }

    /// Turns to another tab: the tab that was active is saved, and the
    /// other one is loaded into the editor and the viewer. Turning to the
    /// active tab, or to a tab that is not there, does nothing.
    pub fn switch_to_tab(&mut self, index: usize)
        requires
            old(self).wf(),
        ensures
            final(self).wf(),
            old(self).turned_to(index, final(self)),
    {
        if index >= self.request_tabs.len() || index == self.active_tab_index {
            return ;
        }
        self.save_current_tab_state();
        assert(self.tabs().len() == old(self).tabs().len());
        self.active_tab_index = index;
        self.show_active_tab();
        self.update_tab_bar();
    }

    /// Opens a blank tab and turns to it; the tab that was active is saved.
    pub fn create_new_tab(&mut self)
        requires
            old(self).wf(),
            old(self).next_tab_id < usize::MAX,
        ensures
            final(self).wf(),
            final(self).next_tab_id == old(self).next_tab_id + 1,
            final(self).active_tab_index == old(self).request_tabs@.len(),
            final(self).tabs() == old(self).tabs().update(
                old(self).active_tab_index as int,
                saved_tab(
                    old(self).tabs()[old(self).active_tab_index as int],
                    old(self).request_editor@,
                    old(self).response_viewer@,
                ),
            ).push(blank_tab(old(self).next_tab_id)),
            final(self).request_editor@ == old(self).request_editor@.after_load(
                blank_tab(old(self).next_tab_id).tab.request,
            ),
            final(self).response_viewer@ == ResponseViewerView::empty(),
            final(self).history_panel == old(self).history_panel,
            final(self).bar_in_step(),
    {
        self.save_current_tab_state();
        let ghost saved = self.tabs();
        let new_tab = OpenTab {
            tab: RequestTab::new_empty(self.next_tab_id),
            response: None,
            history_id: None,
        };
        self.next_tab_id += 1;
        self.request_tabs.push(new_tab);
        assert(self.tabs() =~= saved.push(blank_tab(old(self).next_tab_id)));
        self.active_tab_index = self.request_tabs.len() - 1;
        self.show_active_tab();
        self.update_tab_bar();
    }

    /// Closes the tab at `index`. The last tab is not closed but replaced
    /// by a blank one. Otherwise the tab goes; and where it was the active
    /// one, the tab that takes its place is loaded into the editor and the
    /// viewer.
    pub fn close_tab(&mut self, index: usize)
        requires
            old(self).wf(),
            old(self).request_tabs@.len() == 1 ==> old(self).next_tab_id < usize::MAX,
            old(self).request_tabs@.len() > 1 ==> index < old(self).request_tabs@.len(),
        ensures
            final(self).wf(),
            final(self).history_panel == old(self).history_panel,
            final(self).bar_in_step(),
            old(self).request_tabs@.len() == 1 ==> {
                &&& final(self).tabs() == seq![blank_tab(old(self).next_tab_id)]
                &&& final(self).next_tab_id == old(self).next_tab_id + 1
                &&& final(self).active_tab_index == 0
                &&& final(self).request_editor@ == old(self).request_editor@.after_load(
                    blank_tab(old(self).next_tab_id).tab.request,
                )
                &&& final(self).response_viewer@ == ResponseViewerView::empty()
            },
            old(self).request_tabs@.len() > 1 ==> {
                &&& final(self).tabs() == old(self).tabs().remove(index as int)
                &&& final(self).next_tab_id == old(self).next_tab_id
                &&& final(self).active_tab_index == active_after_close(
                    old(self).active_tab_index as int,
                    index as int,
                    old(self).request_tabs@.len() as int,
                )
                &&& index != old(self).active_tab_index ==> final(self).request_editor == old(self).request_editor && final(self).response_viewer == old(self).response_viewer
                &&& index == old(self).active_tab_index ==> final(self).request_editor@
                    == editor_for(
                    old(self).request_editor@,
                    final(self).tabs()[final(self).active_tab_index as int].tab,
                ) && final(self).response_viewer@ == viewer_for(
                    final(self).tabs()[final(self).active_tab_index as int].response,
                )
            },
    {
        if self.request_tabs.len() <= 1 {
            let blank = OpenTab {
                tab: RequestTab::new_empty(self.next_tab_id),
                response: None,
                history_id: None,
            };
            self.request_tabs.set(0, blank);
            assert(self.tabs() =~= seq![blank_tab(old(self).next_tab_id)]);
            self.next_tab_id += 1;
            self.active_tab_index = 0;
            self.show_active_tab();
            self.update_tab_bar();
            return ;
        }
        self.request_tabs.remove(index);
        assert(self.tabs() =~= old(self).tabs().remove(index as int));
        if index < self.active_tab_index {
            self.active_tab_index -= 1;
        } else if index == self.active_tab_index {
            if self.active_tab_index >= self.request_tabs.len() {
                self.active_tab_index = self.request_tabs.len() - 1;
            }
            self.show_active_tab();
        }
        self.update_tab_bar();
    }

    /// The first tab that was opened from the record with this identifier.
    fn find_history_tab(&self, id: i64) -> (at: usize)
        ensures
            at == history_position(self.tabs(), id),
            at <= self.request_tabs@.len(),
            at < self.request_tabs@.len() ==> self.tabs()[at as int].history_id == Some(id),
    {
        let ghost all = self.tabs();
        let mut i: usize = 0;
        assert(all.skip(0) =~= all);
        while i < self.request_tabs.len()
            invariant
                i <= self.request_tabs.len(),
                all == self.tabs(),
                history_position(all, id) == i + history_position(all.skip(i as int), id),
            decreases self.request_tabs.len() - i,
        {
            assert(all.skip(i as int)[0] == all[i as int]);
            assert(all.skip(i as int).drop_first() =~= all.skip(i as int + 1));
            let found = match self.request_tabs[i].history_id {
                Some(origin) => origin == id,
                None => false,
            };
            if found {
                return i;
            }
            i += 1;
        }
        assert(all.skip(self.request_tabs.len() as int) =~= Seq::empty());
        i
    }

    /// Opens a record of the history: turns to the tab that was opened from
    /// it before, where there is one; else opens a new tab for it and turns
    /// to that.
    pub fn open_history_in_new_tab(&mut self, item: &HistoryItem)
        requires
            old(self).wf(),
            old(self).next_tab_id < usize::MAX,
        ensures
            final(self).wf(),
            final(self).history_panel == old(self).history_panel,
            history_position(old(self).tabs(), item.id) < old(self).request_tabs@.len()
                ==> old(self).turned_to(
                history_position(old(self).tabs(), item.id) as usize,
                final(self),
            ),
            history_position(old(self).tabs(), item.id) >= old(self).request_tabs@.len() ==> {
                &&& final(self).next_tab_id == old(self).next_tab_id + 1
                &&& final(self).active_tab_index == old(self).request_tabs@.len()
                &&& final(self).tabs() == old(self).tabs().update(
                    old(self).active_tab_index as int,
                    saved_tab(
                        old(self).tabs()[old(self).active_tab_index as int],
                        old(self).request_editor@,
                        old(self).response_viewer@,
                    ),
                ).push(history_tab(old(self).next_tab_id, item@))
                &&& final(self).request_editor@ == editor_for(
                    old(self).request_editor@,
                    history_tab(old(self).next_tab_id, item@).tab,
                )
                &&& final(self).response_viewer@ == viewer_for(item@.response)
                &&& final(self).bar_in_step()
            },
    {
        let existing = self.find_history_tab(item.id);
        if existing < self.request_tabs.len() {
            self.switch_to_tab(existing);
            return ;
        }
        self.save_current_tab_state();
        let ghost saved = self.tabs();
        let new_tab = OpenTab {
            tab: RequestTab::from_history(self.next_tab_id, item),
            response: clone_response(&item.response),
            history_id: Some(item.id),
        };
        self.next_tab_id += 1;
        self.request_tabs.push(new_tab);
        assert(self.tabs() =~= saved.push(history_tab(old(self).next_tab_id, item@)));
        self.active_tab_index = self.request_tabs.len() - 1;
        self.show_active_tab();
        self.update_tab_bar();
    }

    /// A request was completed: the viewer shows the response, and the
    /// active tab takes the request and the response. Returns whether the
    /// request is to be recorded in the history, which it is unless the tab
    /// was opened from the history.
    pub fn on_request_completed(&mut self, event: &RequestCompleted) -> (record: bool)
        requires
            old(self).wf(),
        ensures
            final(self).wf(),
            record == (old(self).tabs()[old(self).active_tab_index as int].history_id is None),
            final(self).response_viewer@ == ResponseViewerView::showing(event.response@),
            final(self).tabs() == old(self).tabs().update(
                old(self).active_tab_index as int,
                completed_tab(
                    old(self).tabs()[old(self).active_tab_index as int],
                    event.request@,
                    event.response@,
                ),
            ),
            final(self).active_tab_index == old(self).active_tab_index,
            final(self).next_tab_id == old(self).next_tab_id,
            final(self).request_editor == old(self).request_editor,
            final(self).history_panel == old(self).history_panel,
            final(self).bar_in_step(),
    {
        let active = self.active_tab_index;
        let record = self.request_tabs[active].history_id.is_none();
        self.response_viewer.set_response(event.response.clone());
        let request = event.request.clone();
        let completed = OpenTab {
            tab: RequestTab {
                id: self.request_tabs[active].tab.id,
                title: RequestTab::generate_title(&request),
                request,
                params_state: match &self.request_tabs[active].tab.params_state {
                    Some(rows) => Some(crate::types::clone_param_states(rows)),
                    None => None,
                },
                headers_state: match &self.request_tabs[active].tab.headers_state {
                    Some(rows) => Some(crate::types::clone_header_states(rows)),
                    None => None,
                },
            },
            response: Some(event.response.clone()),
            history_id: self.request_tabs[active].history_id,
        };
        self.request_tabs.set(active, completed);
        assert(self.tabs() =~= old(self).tabs().update(
            active as int,
            completed_tab(old(self).tabs()[active as int], event.request@, event.response@),
        ));
        self.update_tab_bar();
        record
    }
}

} // verus!
