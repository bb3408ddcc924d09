//! The state of the tab bar, and what it announces when it is clicked.

use vstd::prelude::*;

use crate::request_tab::{RequestTab, RequestTabView};

verus! {

/// A tab was clicked.
#[derive(Debug, Clone, Copy, PartialEq, Eq, Structural)]
pub struct TabClicked {
    pub tab_index: usize,
}

/// The button for a new tab was clicked.
#[derive(Debug, Clone, Copy, PartialEq, Eq, Structural)]
pub struct NewTabClicked;

/// The close button of a tab was clicked.
#[derive(Debug, Clone, Copy, PartialEq, Eq, Structural)]
pub struct TabCloseClicked {
    pub tab_index: usize,
}

/// The views of a list of tabs.
pub open spec fn tabs_view(tabs: Seq<RequestTab>) -> Seq<RequestTabView> {
    Seq::new(tabs.len(), |i: int| tabs[i]@)
}

/// The state of the tab bar.
#[derive(Debug)]
pub struct TabBar {
    pub tabs: Vec<RequestTab>,
    pub active_tab_index: usize,
}

impl TabBar {
    /// A tab bar without tabs.
    pub fn new() -> (bar: TabBar)
        ensures
            bar.tabs@.len() == 0,
            bar.active_tab_index == 0,
    {
        TabBar { tabs: Vec::new(), active_tab_index: 0 }
    }

    /// Shows other tabs, and marks one as active.
    pub fn update_tabs(&mut self, tabs: Vec<RequestTab>, active_index: usize)
        ensures
            final(self).tabs == tabs,
            final(self).active_tab_index == active_index,
    {
        self.tabs = tabs;
        self.active_tab_index = active_index;
    }

    /// What a click on a tab announces.
    pub fn on_tab_click(&self, tab_index: usize) -> (event: TabClicked)
        ensures
            event.tab_index == tab_index,
    {
        TabClicked { tab_index }
    }

    /// What a click on the button for a new tab announces.
    pub fn on_new_tab_click(&self) -> (event: NewTabClicked)
        ensures
            event == NewTabClicked,
    {
        NewTabClicked
    }

    /// What a click on the close button of a tab announces.
    pub fn on_close_tab_click(&self, tab_index: usize) -> (event: TabCloseClicked)
        ensures
            event.tab_index == tab_index,
    {
        TabCloseClicked { tab_index }
    }
}

} // verus!
