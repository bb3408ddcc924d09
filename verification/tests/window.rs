use poopman::app::PoopmanApp;
use poopman::history_panel::{age_label, relative_time_label, HistoryPanel};
use poopman::request_editor::RequestCompleted;
use poopman::response_viewer::{
    display_body, size_line, status_line, status_tone, time_line, ResponseViewer, StatusTone,
};
use poopman::tab_bar::TabBar;
use poopman::request_tab::RequestTab;
use poopman::types::{HistoryItem, HttpMethod, RequestData, ResponseData};

fn response(status: Option<u16>, body: &str) -> ResponseData {
    ResponseData { status, duration_ms: 42, headers: vec![], body: body.to_string() }
}

fn item(id: i64, url: &str, with_response: bool) -> HistoryItem {
    HistoryItem::new(
        id,
        "2024-01-01T00:00:00+00:00".to_string(),
        RequestData::new(HttpMethod::GET, url.to_string()),
        if with_response { Some(response(Some(200), "[1]")) } else { None },
    )
}

#[test]
fn ages_are_worded_by_magnitude() {
    assert_eq!(age_label(0), "just now");
    assert_eq!(age_label(-500), "just now");
    assert_eq!(age_label(59), "just now");
    assert_eq!(age_label(60), "1 min ago");
    assert_eq!(age_label(3599), "59 min ago");
    assert_eq!(age_label(3600), "1 hours ago");
    assert_eq!(age_label(86399), "23 hours ago");
    assert_eq!(age_label(86400), "1 days ago");
    assert_eq!(age_label(86400 * 400 + 5), "400 days ago");
    assert_eq!(age_label(i64::MAX), "106751991167300 days ago");
    assert_eq!(relative_time_label("yesterday", None), "yesterday");
    assert_eq!(relative_time_label("2024-01-01T00:00:00Z", Some(125)), "2 min ago");
}

#[test]
fn relative_time_is_counted_from_the_timestamp() {
    let now = chrono::DateTime::parse_from_rfc3339("2024-03-01T12:00:00Z")
        .unwrap()
        .naive_utc();
    let at = |timestamp: &str| HistoryPanel::format_relative_time(timestamp, &now);
    assert_eq!(at("2024-03-01T12:00:00Z"), "just now");
    assert_eq!(at("2024-03-01T11:59:00.500Z"), "just now");
    assert_eq!(at("2024-03-01T11:59:00Z"), "1 min ago");
    assert_eq!(at("2024-03-01T13:30:00+02:00"), "30 min ago");
    assert_eq!(at("2024-03-01T09:00:00-01:00"), "2 hours ago");
    assert_eq!(at("2024-02-28T12:00:00Z"), "2 days ago");
    assert_eq!(at("2025-01-01T00:00:00Z"), "just now");
    assert_eq!(at("2024-03-01 12:00:00"), "2024-03-01 12:00:00");
    assert_eq!(at("not a time"), "not a time");
    assert_eq!(at(""), "");
}

#[test]
fn history_panel_tracks_the_pick() {
    let mut panel = HistoryPanel::new(vec![item(1, "a", false), item(2, "b", true)]);
    assert_eq!(panel.history.len(), 2);
    assert_eq!(panel.selected_id, None);
    let picked = panel.history[1].clone();
    let event = panel.on_item_click(&picked);
    assert_eq!(event.item.id, 2);
    assert_eq!(event.item.request.url, "b");
    assert_eq!(panel.selected_id, Some(2));
    panel.reload(vec![item(3, "c", false)]);
    assert_eq!(panel.history.len(), 1);
    assert_eq!(panel.selected_id, Some(2));
    panel.clear_history(false);
    assert_eq!(panel.history.len(), 1);
    panel.clear_history(true);
    assert!(panel.history.is_empty());
    assert_eq!(panel.selected_id, None);
}

#[test]
fn response_viewer_shows_pretty_json() {
    let mut viewer = ResponseViewer::new();
    assert!(viewer.get_response().is_none());
    viewer.set_active_tab(1);
    viewer.set_response(response(Some(200), "{\"a\":[1]}"));
    assert_eq!(viewer.body_display, "{\n  \"a\": [\n    1\n  ]\n}");
    assert_eq!(viewer.active_tab, 0);
    assert_eq!(viewer.get_response().unwrap().body, "{\"a\":[1]}");
    viewer.set_response(response(Some(500), "<html>"));
    assert_eq!(viewer.body_display, "<html>");
    viewer.clear_response();
    assert!(viewer.get_response().is_none());
    assert_eq!(viewer.body_display, "");
    assert_eq!(display_body(""), "");
    assert_eq!(display_body("7"), "7");
}

#[test]
fn status_bar_lines() {
    let ok = response(Some(200), "héllo");
    assert_eq!(status_line(&ok), "200 OK");
    assert_eq!(time_line(&ok), "Time: 42 ms");
    assert_eq!(size_line(&ok), Some("Size: 6 bytes".to_string()));
    assert_eq!(status_tone(&ok), StatusTone::Success);
    let odd = response(Some(302), "");
    assert_eq!(status_line(&odd), "302 Unknown");
    assert_eq!(status_tone(&odd), StatusTone::Neutral);
    assert_eq!(status_tone(&response(Some(404), "")), StatusTone::Danger);
    let failed = response(None, "Request failed: timeout");
    assert_eq!(status_line(&failed), "ERROR - Network Error");
    assert_eq!(size_line(&failed), None);
    assert_eq!(status_tone(&failed), StatusTone::Danger);
}

#[test]
fn tab_bar_shows_what_it_is_given() {
    let mut bar = TabBar::new();
    assert!(bar.tabs.is_empty());
    bar.update_tabs(vec![RequestTab::new_empty(1), RequestTab::new_empty(2)], 1);
    assert_eq!(bar.tabs.len(), 2);
    assert_eq!(bar.active_tab_index, 1);
    assert_eq!(bar.on_tab_click(1).tab_index, 1);
    assert_eq!(bar.on_close_tab_click(0).tab_index, 0);
    let _ = bar.on_new_tab_click();
}

#[test]
fn window_opens_switches_and_closes_tabs() {
    let mut app = PoopmanApp::new(vec![item(10, "https://example.com/hist?x=1", true)]);
    assert_eq!(app.request_tabs.len(), 1);
    assert_eq!(app.next_tab_id, 1);
    assert!(app.tab_bar.tabs.is_empty());

    app.request_editor.set_url("https://example.com/first?a=1".to_string());
    app.request_editor.toggle_param(0);
    app.request_editor.finish_url_update();
    app.create_new_tab();
    assert_eq!(app.request_tabs.len(), 2);
    assert_eq!(app.active_tab_index, 1);
    assert_eq!(app.next_tab_id, 2);
    assert_eq!(app.request_tabs[1].tab.id, 1);
    assert_eq!(app.request_tabs[0].tab.request.url, "https://example.com/first");
    assert_eq!(app.request_tabs[0].tab.title, "GET first");
    assert_eq!(app.request_tabs[0].tab.params_state.as_ref().unwrap().len(), 1);
    assert_eq!(app.request_editor.url, "");
    assert_eq!(app.tab_bar.tabs.len(), 2);
    assert_eq!(app.tab_bar.active_tab_index, 1);

    app.switch_to_tab(0);
    assert_eq!(app.active_tab_index, 0);
    assert_eq!(app.request_editor.url, "https://example.com/first");
    assert_eq!(app.request_editor.params.len(), 2);
    assert_eq!(app.request_editor.params[0].key, "a");
    assert!(!app.request_editor.params[0].enabled, "the kept rows win over the address");
    app.switch_to_tab(0);
    app.switch_to_tab(5);
    assert_eq!(app.active_tab_index, 0);

    let record = app.history_panel.history[0].clone();
    app.open_history_in_new_tab(&record);
    assert_eq!(app.request_tabs.len(), 3);
    assert_eq!(app.active_tab_index, 2);
    assert_eq!(app.request_tabs[2].history_id, Some(10));
    assert_eq!(app.request_tabs[2].tab.title, "GET hist");
    assert_eq!(app.request_editor.url, "https://example.com/hist?x=1");
    assert_eq!(app.response_viewer.body_display, "[\n  1\n]");
    app.switch_to_tab(1);
    app.open_history_in_new_tab(&record);
    assert_eq!(app.request_tabs.len(), 3, "the record is open already");
    assert_eq!(app.active_tab_index, 2);

    app.close_tab(0);
    assert_eq!(app.request_tabs.len(), 2);
    assert_eq!(app.active_tab_index, 1);
    assert_eq!(app.request_editor.url, "https://example.com/hist?x=1");
    app.close_tab(1);
    assert_eq!(app.request_tabs.len(), 1);
    assert_eq!(app.active_tab_index, 0);
    assert_eq!(app.request_editor.url, "");
    app.close_tab(0);
    assert_eq!(app.request_tabs.len(), 1);
    assert_eq!(app.request_tabs[0].tab.title, "New Request");
    assert_eq!(app.request_tabs[0].tab.id, 3);
    assert_eq!(app.next_tab_id, 4);
    assert_eq!(app.tab_bar.tabs.len(), 1);
}

#[test]
fn window_records_completed_requests_unless_from_history() {
    let mut app = PoopmanApp::new(vec![]);
    let event = RequestCompleted {
        request: RequestData::new(HttpMethod::POST, "https://example.com/submit".to_string()),
        response: response(Some(201), "{}"),
    };
    assert!(app.on_request_completed(&event));
    assert_eq!(app.request_tabs[0].tab.title, "POST submit");
    assert_eq!(app.request_tabs[0].response.as_ref().unwrap().status, Some(201));
    assert_eq!(app.response_viewer.body_display, "{}");
    assert_eq!(app.tab_bar.tabs[0].title, "POST submit");

    app.open_history_in_new_tab(&item(5, "https://example.com/old", false));
    assert!(app.response_viewer.get_response().is_none());
    assert!(!app.on_request_completed(&event));
    assert_eq!(app.request_tabs[1].history_id, Some(5));
    assert_eq!(app.request_tabs[1].tab.request.url, "https://example.com/submit");
}
