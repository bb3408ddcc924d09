//! The state of the history panel: the records on show and the one that
//! was picked, and how the age of a record is worded.

use vstd::prelude::*;
use vstd::string::StringExecFns;

use crate::text::{decimal, decimal_text};
use crate::types::HistoryItem;

verus! {

/// A record of the history was clicked.
#[derive(Debug)]
pub struct HistoryItemClicked {
    pub item: HistoryItem,
}

/// The state of the history panel.
#[derive(Debug)]
pub struct HistoryPanel {
    pub history: Vec<HistoryItem>,
    pub selected_id: Option<i64>,
}

/// The age of a record in words, for an age in whole seconds: `just now`
/// under a minute, then whole minutes under an hour, whole hours under a day,
/// and whole days.
pub open spec fn age_text(seconds: i64) -> Seq<char> {
    if seconds < 60 {
        "just now"@
    } else if seconds / 60 < 60 {
        decimal_text((seconds / 60) as nat) + " min ago"@
    } else if seconds / 3600 < 24 {
        decimal_text((seconds / 3600) as nat) + " hours ago"@
    } else {
        decimal_text((seconds / 86400) as nat) + " days ago"@
    }
}

/// `chrono::NaiveDateTime`: an instant on the UTC time line, of which
/// nothing is read but through `chrono`.
#[verifier::external_type_specification]
#[verifier::external_body]
pub struct ExNaiveDateTime(chrono::NaiveDateTime);

/// The instant that a text names, where `chrono` reads it as an RFC 3339
/// time.
pub uninterp spec fn rfc3339_instant(text: Seq<char>) -> Option<chrono::NaiveDateTime>;

/// The whole seconds from `then` to `now`, as `chrono` counts them.
pub uninterp spec fn whole_seconds_between(
    now: chrono::NaiveDateTime,
    then: chrono::NaiveDateTime,
) -> i64;

/// `chrono::DateTime::parse_from_rfc3339`, taken to the UTC time line: the
/// instant is a function of the text alone.
#[verifier::external_body]
pub(crate) fn parse_rfc3339(text: &str) -> (instant: Option<chrono::NaiveDateTime>)
    ensures
        instant == rfc3339_instant(text@),
{
    chrono::DateTime::parse_from_rfc3339(text).ok().map(|instant| instant.naive_utc())
}

/// `chrono::NaiveDateTime::signed_duration_since`, in whole seconds: a
/// function of the two instants alone.
#[verifier::external_body]
pub(crate) fn seconds_between(now: &chrono::NaiveDateTime, then: &chrono::NaiveDateTime) -> (seconds:
    i64)
    ensures
        seconds == whole_seconds_between(*now, *then),
{
    now.signed_duration_since(*then).num_seconds()
}

/// The age in whole seconds, at `now`, of the instant that a timestamp
/// names; `None` for a timestamp that names none.
pub open spec fn age_of(timestamp: Seq<char>, now: chrono::NaiveDateTime) -> Option<i64> {
    match rfc3339_instant(timestamp) {
        Some(then) => Some(whole_seconds_between(now, then)),
        None => None,
    }
}

/// What is shown for the time of a record: its age in words where the
/// age is known, else the timestamp as it is stored.
pub open spec fn relative_time_text(timestamp: Seq<char>, elapsed_seconds: Option<i64>) -> Seq<
    char,
> {
    match elapsed_seconds {
        Some(seconds) => age_text(seconds),
        None => timestamp,
    }
}

/// The age of a record in words.
pub fn age_label(seconds: i64) -> (label: String)
    ensures
        label@ == age_text(seconds),
{
    if seconds < 60 {
        "just now".to_owned()
    } else if seconds / 60 < 60 {
        let mut label = decimal((seconds / 60) as u64);
        label.append(" min ago");
        label
    } else if seconds / 3600 < 24 {
        let mut label = decimal((seconds / 3600) as u64);
        label.append(" hours ago");
        label
    } else {
        let mut label = decimal((seconds / 86400) as u64);
        label.append(" days ago");
        label
    }
}

/// What is shown for the time of a record, given the age of its timestamp
/// in whole seconds, or `None` for a timestamp whose age is not known.
pub fn relative_time_label(timestamp: &str, elapsed_seconds: Option<i64>) -> (label: String)
    ensures
        label@ == relative_time_text(timestamp@, elapsed_seconds),
{
    match elapsed_seconds {
        Some(seconds) => age_label(seconds),
        None => timestamp.to_owned(),
    }
}

impl HistoryPanel {
    /// A panel that shows the records handed to it, none of them picked.
    pub fn new(history: Vec<HistoryItem>) -> (panel: HistoryPanel)
        ensures
            panel.history == history,
            panel.selected_id is None,
    {
        HistoryPanel { history, selected_id: None }
    }

    /// Shows the records as they were loaded anew; the pick stays.
    pub fn reload(&mut self, history: Vec<HistoryItem>)
        ensures
            final(self).history == history,
            final(self).selected_id == old(self).selected_id,
    {
        self.history = history;
    }

    /// What is shown, at `now`, for the time of a record: the age of its
    /// timestamp in words, or the timestamp itself where it is no RFC 3339
    /// time. `now` is an instant on the UTC time line.
    pub fn format_relative_time(timestamp: &str, now: &chrono::NaiveDateTime) -> (label: String)
        ensures
            label@ == relative_time_text(timestamp@, age_of(timestamp@, *now)),
    {
        let elapsed = match parse_rfc3339(timestamp) {
            Some(then) => Some(seconds_between(now, &then)),
            None => None,
        };
        relative_time_label(timestamp, elapsed)
    }

    /// A record was clicked: it is the pick now, and the click is announced
    /// with a copy of the record.
    pub fn on_item_click(&mut self, item: &HistoryItem) -> (event: HistoryItemClicked)
        ensures
            final(self).selected_id == Some(item.id),
            final(self).history == old(self).history,
            event.item@ == item@,
    {
        self.selected_id = Some(item.id);
        HistoryItemClicked { item: item.clone() }
    }

    /// The history was to be cleared. Where the store did so, the panel
    /// shows nothing and has no pick; where it failed, the panel stays.
    pub fn clear_history(&mut self, cleared: bool)
        ensures
            cleared ==> final(self).history@.len() == 0 && final(self).selected_id is None,
            !cleared ==> *final(self) == *old(self),
    {
        if cleared {
            self.history.clear();
            self.selected_id = None;
        }
    }
}

} // verus!
