use poopman::body_editor::BodyEditor;
use poopman::header_table::find_predefined;
use poopman::request_editor::{index_of_method, method_for_index, RequestEditor, SyncPhase};
use poopman::send_request::{
    body_bytes, completed_response, failed_response, form_body,
};
use poopman::types::{
    BodyType, FormDataRow, FormDataValue, HeaderState, HeaderType, HttpMethod, ParamState,
    PredefinedHeader, RawSubtype, RequestData,
};

fn pair(key: &str, value: &str) -> (String, String) {
    (key.to_string(), value.to_string())
}

fn params_of(editor: &RequestEditor) -> Vec<(bool, String, String)> {
    editor.params.iter().map(|p| (p.enabled, p.key.clone(), p.value.clone())).collect()
}

fn row(enabled: bool, key: &str, value: &str) -> (bool, String, String) {
    (enabled, key.to_string(), value.to_string())
}

#[test]
fn new_editor_has_predefined_headers_and_placeholders() {
    let editor = RequestEditor::new();
    assert_eq!(editor.url, "");
    assert_eq!(editor.method_index, 0);
    assert_eq!(editor.sync, SyncPhase::Idle);
    assert!(!editor.loading);
    assert_eq!(params_of(&editor), vec![row(true, "", "")]);
    assert_eq!(editor.headers.len(), 8);
    for (shown, header) in editor.headers.iter().zip(PredefinedHeader::all()) {
        assert!(shown.enabled);
        assert_eq!(shown.key, header.name());
        assert_eq!(shown.value, header.default_value());
        assert_eq!(shown.header_type, header.header_type());
        assert_eq!(shown.predefined, Some(header));
    }
    let last = editor.headers.last().unwrap();
    assert_eq!((last.key.as_str(), last.value.as_str()), ("", ""));
    assert_eq!(last.header_type, HeaderType::Custom);
    assert_eq!(last.predefined, None);
}

#[test]
fn url_edit_rebuilds_params_with_one_trailing_placeholder() {
    let mut editor = RequestEditor::new();
    assert!(editor.set_url("https://example.com/api?foo=bar&baz=qux".to_string()));
    assert_eq!(
        params_of(&editor),
        vec![row(true, "foo", "bar"), row(true, "baz", "qux"), row(true, "", "")]
    );
    assert_eq!(editor.last_parsed_url, "https://example.com/api?foo=bar&baz=qux");
    assert_eq!(editor.sync, SyncPhase::Idle);
    assert_eq!(editor.url, "https://example.com/api?foo=bar&baz=qux");
}

#[test]
fn url_edit_with_same_params_keeps_rows() {
    let mut editor = RequestEditor::new();
    editor.set_url("https://example.com/api?foo=bar".to_string());
    editor.params[0].enabled = false;
    assert!(!editor.set_url("https://example.org/other?foo=bar".to_string()));
    assert_eq!(params_of(&editor), vec![row(false, "foo", "bar"), row(true, "", "")]);
    assert_eq!(editor.last_parsed_url, "https://example.org/other?foo=bar");
    assert!(!editor.parse_url_to_params());
}

#[test]
fn unreadable_url_leaves_params_untouched() {
    let mut editor = RequestEditor::new();
    editor.set_url("example.com?a=1".to_string());
    assert_eq!(params_of(&editor), vec![row(true, "a", "1"), row(true, "", "")]);
    assert!(!editor.set_url("example.com".to_string()));
    assert_eq!(params_of(&editor), vec![row(true, "a", "1"), row(true, "", "")]);
    assert_eq!(editor.last_parsed_url, "example.com?a=1");
    assert!(editor.set_url(String::new()));
    assert_eq!(params_of(&editor), vec![row(true, "", "")]);
}

#[test]
fn strict_url_without_query_clears_params() {
    let mut editor = RequestEditor::new();
    editor.set_url("https://example.com?a=1".to_string());
    assert!(editor.set_url("https://example.com".to_string()));
    assert_eq!(params_of(&editor), vec![row(true, "", "")]);
}

#[test]
fn every_pair_read_from_a_url_gets_a_row() {
    let mut editor = RequestEditor::new();
    assert!(editor.set_url("https://e.com/?=&a=b".to_string()));
    assert_eq!(
        params_of(&editor),
        vec![row(true, "", ""), row(true, "a", "b"), row(true, "", "")]
    );
    assert_eq!(editor.last_parsed_url, "https://e.com/?=&a=b");
    assert!(!editor.parse_url_to_params());
    // A pair without key and value counts for nothing in the comparison.
    assert!(!editor.set_url("https://e.com/?a=b&=".to_string()));
    assert_eq!(
        params_of(&editor),
        vec![row(true, "", ""), row(true, "a", "b"), row(true, "", "")]
    );
    assert!(editor.set_url("https://e.com/?=&a=c&=v".to_string()));
    assert_eq!(
        params_of(&editor),
        vec![row(true, "", ""), row(true, "a", "c"), row(true, "", "v"), row(true, "", "")]
    );
}

#[test]
fn param_edit_rebuilds_url_and_holds_the_guard() {
    let mut editor = RequestEditor::new();
    editor.set_url("https://example.com/api?old=1#frag".to_string());
    assert!(editor.set_param_key(1, "name".to_string()));
    assert_eq!(editor.sync, SyncPhase::SyncingFromParams);
    assert_eq!(editor.url, "https://example.com/api?old=1&name=");
    assert_eq!(
        params_of(&editor),
        vec![row(true, "old", "1"), row(true, "name", ""), row(true, "", "")]
    );
    // The write announces itself: while the guard is held nothing is read back.
    assert!(!editor.parse_url_to_params());
    assert!(!editor.set_param_value(1, "ignored by url".to_string()));
    assert_eq!(editor.url, "https://example.com/api?old=1&name=");
    editor.finish_url_update();
    assert_eq!(editor.sync, SyncPhase::Idle);
    assert!(editor.set_param_value(1, "hello world".to_string()));
    assert_eq!(editor.url, "https://example.com/api?old=1&name=hello%20world");
    editor.finish_url_update();
    // At rest the two projections agree: reading the URL back changes nothing.
    let before = params_of(&editor);
    assert!(!editor.parse_url_to_params());
    assert_eq!(params_of(&editor), before);
    assert_eq!(editor.last_parsed_url, editor.url);
}

#[test]
fn toggle_and_remove_param_rebuild_url() {
    let mut editor = RequestEditor::new();
    editor.set_url("example.com?a=1&b=2".to_string());
    assert!(editor.toggle_param(0));
    assert_eq!(editor.url, "example.com?b=2");
    assert_eq!(editor.params[0].enabled, false);
    editor.finish_url_update();
    assert!(editor.toggle_param(0));
    assert_eq!(editor.url, "example.com?a=1&b=2");
    editor.finish_url_update();
    assert!(editor.remove_param(1));
    assert_eq!(editor.url, "example.com?a=1");
    assert_eq!(params_of(&editor), vec![row(true, "a", "1"), row(true, "", "")]);
    editor.finish_url_update();
    assert!(editor.remove_param(0));
    assert_eq!(editor.url, "example.com");
    assert_eq!(params_of(&editor), vec![row(true, "", "")]);
    editor.finish_url_update();
    assert!(editor.remove_param(0));
    assert_eq!(params_of(&editor), vec![row(true, "", "")], "the table never runs empty");
    editor.finish_url_update();
    assert!(!editor.toggle_param(9));
    assert!(!editor.remove_param(9));
    assert!(!editor.set_param_key(9, "k".to_string()));
    assert!(!editor.set_param_value(9, "v".to_string()));
    assert_eq!(editor.sync, SyncPhase::Idle);
}

#[test]
fn removing_the_last_real_param_leaves_only_the_placeholder() {
    let mut editor = RequestEditor::new();
    editor.set_url("example.com?a=1".to_string());
    editor.remove_param(0);
    assert_eq!(params_of(&editor), vec![row(true, "", "")]);
    assert_eq!(editor.url, "example.com");
}

#[test]
fn rebuild_url_uses_the_current_base() {
    let mut editor = RequestEditor::new();
    editor.load_params_state(&vec![
        ParamState { enabled: true, key: "a".to_string(), value: "b c".to_string() },
        ParamState { enabled: false, key: "skip".to_string(), value: "x".to_string() },
        ParamState { enabled: true, key: "".to_string(), value: "nokey".to_string() },
    ]);
    assert_eq!(editor.params.len(), 4);
    assert_eq!(editor.url, "");
    assert_eq!(editor.rebuild_url_with_params("https://h/p?old=1"), "https://h/p?a=b%20c");
    assert_eq!(editor.rebuild_url_with_params(""), "?a=b%20c");
    let state = editor.get_params_state();
    assert_eq!(state.len(), 3);
    assert_eq!(state[1].key, "skip");
    assert!(!state[1].enabled);
    assert_eq!(state[2].value, "nokey");
}

#[test]
fn header_rows_follow_their_kind() {
    let mut editor = RequestEditor::new();
    editor.toggle_header(0);
    assert!(editor.headers[0].enabled, "a mandatory header stays enabled");
    editor.toggle_header(1);
    assert!(!editor.headers[1].enabled);
    editor.toggle_header(1);
    assert!(editor.headers[1].enabled);
    editor.toggle_header(99);
    editor.remove_header_row(1);
    assert_eq!(editor.headers.len(), 8, "a predefined header is not removed");
    editor.set_header_key(7, "X-Token".to_string());
    assert_eq!(editor.headers.len(), 9, "a new empty row waits for the next header");
    editor.set_header_value(7, "secret".to_string());
    editor.set_header_key(7, "X-Auth".to_string());
    assert_eq!(editor.headers.len(), 9);
    editor.set_header_key(2, "Accepted".to_string());
    assert_eq!(editor.headers.len(), 9);
    editor.remove_header_row(8);
    assert_eq!(editor.headers.len(), 8);
    editor.remove_header_row(7);
    assert_eq!(editor.headers.len(), 8, "the last custom row is replaced by an empty one");
    assert_eq!(editor.headers[7].key, "");
    assert_eq!(editor.headers[7].header_type, HeaderType::Custom);
}

#[test]
fn predefined_headers_are_found_by_name_in_any_case() {
    assert_eq!(find_predefined("content-type"), Some(PredefinedHeader::ContentType));
    assert_eq!(find_predefined("ACCEPT"), Some(PredefinedHeader::Accept));
    assert_eq!(find_predefined("Accept-Encoding"), Some(PredefinedHeader::AcceptEncoding));
    assert_eq!(find_predefined("Accept "), None);
    assert_eq!(find_predefined(""), None);
}

#[test]
fn load_request_fills_every_table() {
    let mut editor = RequestEditor::new();
    editor.toggle_header(2);
    let request = RequestData {
        method: HttpMethod::PATCH,
        url: "https://example.com/items?id=7".to_string(),
        headers: vec![
            pair("accept", "text/html"),
            pair("X-One", "1"),
            pair("ACCEPT", "text/plain"),
            pair("X-One", "2"),
        ],
        body: BodyType::Raw { content: "<a/>".to_string(), subtype: RawSubtype::Xml },
    };
    assert!(editor.load_request(&request));
    assert_eq!(editor.url, "https://example.com/items?id=7");
    assert_eq!(editor.method_index, 4);
    assert_eq!(params_of(&editor), vec![row(true, "id", "7"), row(true, "", "")]);
    assert_eq!(editor.headers.len(), 7 + 3 + 1);
    assert_eq!(editor.headers[2].key, "Accept");
    assert_eq!(editor.headers[2].value, "text/html", "the first header of a name takes the slot");
    assert!(editor.headers[2].enabled);
    assert_eq!((editor.headers[7].key.as_str(), editor.headers[7].value.as_str()), ("X-One", "1"));
    assert_eq!(
        (editor.headers[8].key.as_str(), editor.headers[8].value.as_str()),
        ("ACCEPT", "text/plain"),
        "a later header of the same name is kept as a custom row"
    );
    assert_eq!(editor.headers[8].header_type, HeaderType::Custom);
    assert_eq!((editor.headers[9].key.as_str(), editor.headers[9].value.as_str()), ("X-One", "2"));
    assert_eq!(editor.headers[10].key, "");
    assert_eq!(editor.body_editor.body_type_index, 1);
    assert_eq!(editor.body_editor.raw_content, "<a/>");
    assert_eq!(editor.body_editor.current_raw_subtype, RawSubtype::Xml);

    let shown = editor.get_current_request_data();
    assert_eq!(shown.method, HttpMethod::PATCH);
    assert_eq!(shown.url, "https://example.com/items?id=7");
    assert_eq!(shown.headers.len(), 10);
    assert_eq!(shown.headers[7], pair("X-One", "1"));
    assert_eq!(shown.headers[8], pair("ACCEPT", "text/plain"));
    assert!(matches!(shown.body, BodyType::Raw { subtype: RawSubtype::Xml, .. }));
}

#[test]
fn headers_state_is_kept_and_restored() {
    let mut editor = RequestEditor::new();
    editor.toggle_header(3);
    let state = editor.get_headers_state();
    assert_eq!(state.len(), 8);
    assert!(!state[3].enabled);
    let mut other = RequestEditor::new();
    other.load_headers_state(&state);
    assert_eq!(other.headers.len(), 8);
    assert!(!other.headers[3].enabled);
    other.load_headers_state(&vec![HeaderState {
        enabled: true,
        key: "Accept".to_string(),
        value: "*/*".to_string(),
        header_type: HeaderType::Predefined,
        predefined: Some(PredefinedHeader::Accept),
    }]);
    assert_eq!(other.headers.len(), 2);
    assert_eq!(other.headers[1].header_type, HeaderType::Custom);
}

#[test]
fn methods_are_chosen_by_index() {
    for (index, method) in HttpMethod::all().into_iter().enumerate() {
        assert_eq!(method_for_index(index), method);
        assert_eq!(index_of_method(method), index);
    }
    assert_eq!(method_for_index(7), HttpMethod::GET);
    assert_eq!(method_for_index(usize::MAX), HttpMethod::GET);
}

#[test]
fn prepare_request_needs_a_url() {
    let mut editor = RequestEditor::new();
    assert!(editor.prepare_request().is_none());
    assert!(!editor.loading);
}

#[test]
fn prepare_request_measures_and_infers_content_type() {
    let mut editor = RequestEditor::new();
    editor.set_url("https://example.com".to_string());
    editor.set_method_index(1);
    editor.body_editor.set_raw_content("héllo".to_string());
    editor.body_editor.handle_subtype_change(Some(2));
    editor.toggle_header(1);
    editor.set_header_key(7, "X-Empty".to_string());
    let request = editor.prepare_request().unwrap();
    assert!(editor.loading);
    assert_eq!(editor.headers[6].value, "6");
    assert_eq!(request.method, HttpMethod::POST);
    assert_eq!(request.url, "https://example.com");
    assert_eq!(
        request.headers,
        vec![
            pair("Cache-Control", "no-cache"),
            pair("Accept", "*/*"),
            pair("Accept-Encoding", "gzip, deflate, br"),
            pair("User-Agent", "Poopman/1.0"),
            pair("Connection", "keep-alive"),
            pair("Content-Length", "6"),
            pair("Content-Type", "text/plain"),
        ]
    );
    assert!(matches!(&request.body, BodyType::Raw { content, .. } if content == "héllo"));
    editor.finish_request();
    assert!(!editor.loading);

    editor.set_header_key(7, "content-TYPE".to_string());
    editor.set_header_value(7, "x/y".to_string());
    let request = editor.prepare_request().unwrap();
    assert_eq!(request.headers.last().unwrap(), &pair("content-TYPE", "x/y"));
    assert_eq!(request.headers.len(), 7);

    editor.set_header_value(7, String::new());
    editor.body_editor.select_body_type(2);
    let request = editor.prepare_request().unwrap();
    assert!(request.headers.iter().all(|(k, _)| !k.eq_ignore_ascii_case("content-type")));
    assert_eq!(request.headers[5], pair("Content-Length", "0"));
}

#[test]
fn body_bytes_follow_the_kind() {
    assert_eq!(body_bytes(&BodyType::Empty), Vec::<u8>::new());
    assert_eq!(
        body_bytes(&BodyType::Raw { content: "hé".to_string(), subtype: RawSubtype::Text }),
        "hé".as_bytes().to_vec()
    );
    let rows = vec![
        FormDataRow { enabled: true, key: "a".to_string(), value: FormDataValue::Text("1 2".to_string()) },
        FormDataRow { enabled: false, key: "b".to_string(), value: FormDataValue::Text("x".to_string()) },
        FormDataRow {
            enabled: true,
            key: "f".to_string(),
            value: FormDataValue::File { path: "/tmp/p".to_string() },
        },
        FormDataRow { enabled: true, key: "".to_string(), value: FormDataValue::Text("".to_string()) },
    ];
    assert_eq!(form_body(&rows), "a=1 2&f=@/tmp/p&=");
    assert_eq!(body_bytes(&BodyType::FormData(rows)), b"a=1 2&f=@/tmp/p&=".to_vec());
    assert_eq!(form_body(&vec![]), "");
}

#[test]
fn responses_record_what_came_back() {
    let ok = completed_response(201, 15, vec![pair("a", "b")], "bødy".as_bytes());
    assert_eq!(ok.status, Some(201));
    assert_eq!(ok.duration_ms, 15);
    assert_eq!(ok.headers, vec![pair("a", "b")]);
    assert_eq!(ok.body, "bødy");
    let garbled = completed_response(200, (1u128 << 64) + 7, vec![], b"ok\xffend");
    assert_eq!(garbled.body, "ok\u{fffd}end");
    assert_eq!(garbled.duration_ms, 7);
    let failed = failed_response(30000, "connection refused");
    assert_eq!(failed.status, None);
    assert!(failed.is_network_error());
    assert_eq!(failed.duration_ms, 30000);
    assert!(failed.headers.is_empty());
    assert_eq!(failed.body, "Request failed: connection refused");
}

#[test]
fn body_editor_starts_raw_json() {
    let editor = BodyEditor::new();
    assert_eq!(editor.body_type_index, 1);
    assert_eq!(editor.current_raw_subtype, RawSubtype::Json);
    assert_eq!(editor.formdata_rows.len(), 1);
    assert!(editor.validation_message.is_none());
    assert!(matches!(editor.get_body(), BodyType::Raw { subtype: RawSubtype::Json, .. }));
    assert_eq!(editor.calculate_length(), 0);
}

#[test]
fn body_editor_takes_and_gives_bodies() {
    let mut editor = BodyEditor::new();
    editor.set_body(&BodyType::Empty);
    assert!(matches!(editor.get_body(), BodyType::Empty));
    assert_eq!(editor.calculate_length(), 0);
    editor.set_body(&BodyType::Raw { content: "日本".to_string(), subtype: RawSubtype::JavaScript });
    assert_eq!(editor.raw_subtype_index, 3);
    assert_eq!(editor.calculate_length(), 6);
    editor.set_body(&BodyType::FormData(vec![FormDataRow {
        enabled: false,
        key: "k".to_string(),
        value: FormDataValue::File { path: "p".to_string() },
    }]));
    assert_eq!(editor.body_type_index, 2);
    assert_eq!(editor.formdata_rows.len(), 2);
    assert_eq!(editor.calculate_length(), 0);
    match editor.get_body() {
        BodyType::FormData(rows) => {
            assert_eq!(rows.len(), 2);
            assert!(!rows[0].enabled);
            assert_eq!(rows[0].value, FormDataValue::File { path: "p".to_string() });
            assert_eq!(rows[1].value, FormDataValue::Text(String::new()));
        }
        other => panic!("unexpected body {:?}", other),
    }
    editor.select_body_type(5);
    assert!(matches!(editor.get_body(), BodyType::Empty));
}

#[test]
fn form_data_rows_are_edited_in_place() {
    let mut editor = BodyEditor::new();
    editor.handle_input_event(0, true, "name".to_string());
    assert_eq!(editor.formdata_rows.len(), 2, "typing a key in the last row adds a row");
    editor.handle_input_event(0, false, "value".to_string());
    editor.handle_input_event(0, true, "renamed".to_string());
    assert_eq!(editor.formdata_rows.len(), 2);
    editor.handle_input_event(7, true, "lost".to_string());
    assert_eq!(editor.formdata_rows.len(), 2);
    assert_eq!(editor.formdata_rows[0].key, "renamed");
    assert_eq!(editor.formdata_rows[0].value, FormDataValue::Text("value".to_string()));
    editor.toggle_formdata_type(0);
    assert_eq!(editor.formdata_rows[0].value, FormDataValue::File { path: "value".to_string() });
    editor.update_formdata_value(0, "/tmp/f".to_string());
    assert_eq!(editor.formdata_rows[0].value, FormDataValue::File { path: "/tmp/f".to_string() });
    editor.toggle_formdata_type(0);
    assert_eq!(editor.formdata_rows[0].value, FormDataValue::Text("/tmp/f".to_string()));
    editor.toggle_formdata_row(0);
    assert!(!editor.formdata_rows[0].enabled);
    editor.update_formdata_key(1, "second".to_string());
    assert_eq!(editor.formdata_rows.len(), 2);
    editor.remove_formdata_row(0);
    assert_eq!(editor.formdata_rows.len(), 1);
    assert_eq!(editor.formdata_rows[0].key, "second");
    editor.remove_formdata_row(3);
    editor.toggle_formdata_row(3);
    editor.toggle_formdata_type(3);
    editor.update_formdata_key(3, "x".to_string());
    editor.update_formdata_value(3, "x".to_string());
    assert_eq!(editor.formdata_rows.len(), 1);
}

#[test]
fn raw_body_is_formatted_and_validated() {
    let mut editor = BodyEditor::new();
    editor.set_raw_content("{\"a\":1}".to_string());
    editor.format_raw_body();
    assert_eq!(editor.raw_content, "{\n  \"a\": 1\n}");
    assert_eq!(editor.validation_message.as_deref(), Some("JSON formatted successfully"));
    assert!(!editor.validation_error);
    editor.validate_raw_body();
    assert_eq!(editor.validation_message.as_deref(), Some("\u{2713} Valid JSON"));

    editor.set_raw_content("{".to_string());
    editor.format_raw_body();
    assert_eq!(editor.raw_content, "{");
    assert!(editor.validation_error);
    assert!(editor.validation_message.as_deref().unwrap().starts_with("JSON parse error: "));
    editor.validate_raw_body();
    assert!(editor.validation_message.as_deref().unwrap().starts_with("Invalid JSON: "));

    editor.set_raw_content("  ".to_string());
    editor.validate_raw_body();
    assert_eq!(editor.validation_message, None);
    assert!(editor.validation_error, "a blank text clears the message only");
    editor.format_raw_body();
    assert_eq!(editor.validation_message.as_deref(), Some("Empty input"));

    assert!(editor.handle_subtype_change(Some(1)));
    assert!(!editor.handle_subtype_change(Some(1)));
    editor.set_raw_content("<a><b/></a>".to_string());
    editor.format_raw_body();
    assert_eq!(editor.raw_content, "<a>\n  <b/>\n</a>");
    assert_eq!(editor.validation_message.as_deref(), Some("XML formatted successfully"));
    editor.validate_raw_body();
    assert_eq!(editor.validation_message.as_deref(), Some("\u{2713} Valid XML"));
    editor.set_raw_content("<a></b>".to_string());
    editor.validate_raw_body();
    assert!(editor.validation_error);

    assert!(editor.handle_subtype_change(Some(2)));
    editor.validation_message = None;
    editor.validation_error = false;
    editor.validate_raw_body();
    assert_eq!(editor.validation_message, None);
    editor.format_raw_body();
    assert_eq!(
        editor.validation_message.as_deref(),
        Some("Formatting not supported for this type")
    );
    assert!(editor.validation_error);
    assert!(editor.handle_subtype_change(None));
    assert_eq!(editor.current_raw_subtype, RawSubtype::Json);
}
