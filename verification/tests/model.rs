use poopman::request_tab::RequestTab;
use poopman::text::{decimal, eq_ignore_ascii_case, text_is_blank};
use poopman::types::{
    BodyType, HeaderType, HistoryItem, HttpMethod, PredefinedHeader, RawSubtype, RequestData,
    ResponseData,
};

fn response(status: Option<u16>) -> ResponseData {
    ResponseData { status, duration_ms: 0, headers: vec![], body: String::new() }
}

#[test]
fn status_text_maps_known_codes() {
    let cases = [
        (200, "OK"),
        (201, "Created"),
        (204, "No Content"),
        (400, "Bad Request"),
        (401, "Unauthorized"),
        (403, "Forbidden"),
        (404, "Not Found"),
        (500, "Internal Server Error"),
        (502, "Bad Gateway"),
        (503, "Service Unavailable"),
        (202, "Unknown"),
        (0, "Unknown"),
        (65535, "Unknown"),
    ];
    for (code, label) in cases {
        assert_eq!(response(Some(code)).status_text(), label);
    }
    assert_eq!(response(None).status_text(), "Network Error");
}

#[test]
fn status_classes_follow_the_code() {
    for code in [200u16, 204, 299] {
        assert!(response(Some(code)).is_success());
        assert!(!response(Some(code)).is_error());
    }
    for code in [100u16, 199, 300, 399] {
        assert!(!response(Some(code)).is_success());
        assert!(!response(Some(code)).is_error());
    }
    for code in [400u16, 404, 500, 65535] {
        assert!(!response(Some(code)).is_success());
        assert!(response(Some(code)).is_error());
    }
    let failed = response(None);
    assert!(failed.is_network_error());
    assert!(failed.is_error());
    assert!(!failed.is_success());
    assert!(!response(Some(200)).is_network_error());
}

#[test]
fn methods_have_names_and_are_found_by_them() {
    let names = ["GET", "POST", "PUT", "DELETE", "PATCH", "HEAD", "OPTIONS"];
    let all = HttpMethod::all();
    assert_eq!(all.len(), 7);
    for (method, name) in all.iter().zip(names) {
        assert_eq!(method.as_str(), name);
        assert_eq!(HttpMethod::from_str(name), Some(*method));
        assert_eq!(HttpMethod::from_str(&name.to_lowercase()), Some(*method));
        assert_eq!(HttpMethod::from_upper(name), Some(*method));
    }
    assert_eq!(HttpMethod::from_str("Get"), Some(HttpMethod::GET));
    assert_eq!(HttpMethod::from_str("TRACE"), None);
    assert_eq!(HttpMethod::from_str(""), None);
    assert_eq!(HttpMethod::from_str(" GET"), None);
    assert_eq!(HttpMethod::from_upper("get"), None);
}

#[test]
fn raw_subtypes_have_names_and_content_types() {
    let expected = [
        (RawSubtype::Json, "json", "application/json"),
        (RawSubtype::Xml, "xml", "application/xml"),
        (RawSubtype::Text, "text", "text/plain"),
        (RawSubtype::JavaScript, "javascript", "application/javascript"),
    ];
    assert_eq!(RawSubtype::all(), expected.map(|(subtype, _, _)| subtype).to_vec());
    for (subtype, name, content_type) in expected {
        assert_eq!(subtype.as_str(), name);
        assert_eq!(subtype.content_type(), content_type);
    }
}

#[test]
fn predefined_headers_have_names_values_and_kinds() {
    let expected = [
        (PredefinedHeader::CacheControl, "Cache-Control", "no-cache"),
        (PredefinedHeader::ContentType, "Content-Type", "application/json"),
        (PredefinedHeader::Accept, "Accept", "*/*"),
        (PredefinedHeader::AcceptEncoding, "Accept-Encoding", "gzip, deflate, br"),
        (PredefinedHeader::UserAgent, "User-Agent", "Poopman/1.0"),
        (PredefinedHeader::Connection, "Connection", "keep-alive"),
        (PredefinedHeader::ContentLength, "Content-Length", "0"),
    ];
    assert_eq!(PredefinedHeader::all(), expected.map(|(header, _, _)| header).to_vec());
    for (header, name, value) in expected {
        assert_eq!(header.name(), name);
        assert_eq!(header.default_value(), value);
        assert_eq!(header.is_auto_calculated(), header == PredefinedHeader::ContentLength);
        let kind = if header == PredefinedHeader::CacheControl {
            HeaderType::Mandatory
        } else {
            HeaderType::Predefined
        };
        assert_eq!(header.header_type(), kind);
    }
}

#[test]
fn default_body_is_empty_raw_json() {
    match BodyType::default() {
        BodyType::Raw { content, subtype } => {
            assert_eq!(content, "");
            assert_eq!(subtype, RawSubtype::Json);
        }
        other => panic!("unexpected default body {:?}", other),
    }
    let request = RequestData::new(HttpMethod::PUT, "https://example.com".to_string());
    assert_eq!(request.method, HttpMethod::PUT);
    assert_eq!(request.url, "https://example.com");
    assert!(request.headers.is_empty());
    assert!(matches!(request.body, BodyType::Raw { subtype: RawSubtype::Json, .. }));
}

#[test]
fn history_item_holds_its_parts() {
    let request = RequestData::new(HttpMethod::GET, "u".to_string());
    let item = HistoryItem::new(3, "t".to_string(), request, Some(response(Some(200))));
    assert_eq!(item.id, 3);
    assert_eq!(item.timestamp, "t");
    assert_eq!(item.request.url, "u");
    assert_eq!(item.response.as_ref().unwrap().status, Some(200));
    let copy = item.clone();
    assert_eq!(copy.id, 3);
    assert_eq!(copy.request.url, "u");
}

#[test]
fn tab_titles_follow_the_request() {
    let title = |method, url: &str| {
        RequestTab::generate_title(&RequestData::new(method, url.to_string()))
    };
    assert_eq!(title(HttpMethod::GET, ""), "New Request");
    assert_eq!(title(HttpMethod::GET, "https://example.com/api/users?page=2"), "GET users");
    assert_eq!(title(HttpMethod::POST, "https://example.com/api/users/"), "POST Untitled");
    assert_eq!(title(HttpMethod::DELETE, "example.com"), "DELETE example.com");
    assert_eq!(title(HttpMethod::PUT, "?only=query"), "PUT Untitled");
    assert_eq!(title(HttpMethod::HEAD, "https://example.com/a?b=/c/d"), "HEAD a");
    assert_eq!(title(HttpMethod::PATCH, "/"), "PATCH Untitled");
}

#[test]
fn tabs_are_made_from_requests_and_history() {
    let blank = RequestTab::new_empty(4);
    assert_eq!(blank.id, 4);
    assert_eq!(blank.title, "New Request");
    assert_eq!(blank.request.method, HttpMethod::GET);
    assert_eq!(blank.request.url, "");
    assert!(blank.request.headers.is_empty());
    assert!(blank.params_state.is_none());
    assert!(blank.headers_state.is_none());

    let request = RequestData::new(HttpMethod::POST, "https://example.com/items".to_string());
    let mut tab = RequestTab::from_request(5, request.clone());
    assert_eq!(tab.id, 5);
    assert_eq!(tab.title, "POST items");
    assert!(tab.params_state.is_none());

    let item = HistoryItem::new(9, "t".to_string(), request, None);
    let from_history = RequestTab::from_history(6, &item);
    assert_eq!(from_history.id, 6);
    assert_eq!(from_history.title, "POST items");
    assert_eq!(from_history.request.url, "https://example.com/items");

    tab.request.url = "https://example.com/other/path?x=1".to_string();
    tab.request.method = HttpMethod::GET;
    assert_eq!(tab.title, "POST items");
    tab.update_title();
    assert_eq!(tab.title, "GET path");
}

#[test]
fn text_helpers_behave() {
    assert_eq!(decimal(0), "0");
    assert_eq!(decimal(7), "7");
    assert_eq!(decimal(10), "10");
    assert_eq!(decimal(1234567890), "1234567890");
    assert_eq!(decimal(u64::MAX), "18446744073709551615");
    assert!(eq_ignore_ascii_case("Content-Type", "content-type"));
    assert!(eq_ignore_ascii_case("", ""));
    assert!(!eq_ignore_ascii_case("Content-Type", "Content-Typ"));
    assert!(!eq_ignore_ascii_case("é", "É"));
    assert!(eq_ignore_ascii_case("É-a", "É-A"));
    assert!(!eq_ignore_ascii_case("a[", "a{"));
    assert!(text_is_blank(""));
    assert!(text_is_blank(" \t\r\n\u{b}\u{c}\u{85}\u{a0}\u{1680}\u{2000}\u{200a}\u{2028}\u{2029}\u{202f}\u{205f}\u{3000}"));
    assert!(!text_is_blank(" x "));
    assert!(!text_is_blank("\u{200b}"));
    assert!(!text_is_blank("\u{180e}"));
    for c in (0u32..=0x10ffff).filter_map(char::from_u32) {
        assert_eq!(text_is_blank(&c.to_string()), c.is_whitespace());
    }
}
