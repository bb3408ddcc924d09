use poopman::code_formatter::{format_json, format_parsed_json, format_xml, validate_parsed_json, validate_xml};
use poopman::db::{
    decode_body, decode_headers, encode_body, encode_headers, history_item_from_row,
    new_history_row, HistoryRow,
};
use poopman::json_shape::{body_from_json, body_to_json, headers_from_json, headers_to_json};
use poopman::json::{find_member, read_document, write_document, JsonMember, JsonValue};
use poopman::percent::decode_lenient;
use poopman::types::{BodyType, FormDataRow, FormDataValue, HttpMethod, RawSubtype};
use poopman::url_params::{extract_base_url, parse_query_params, read_query_params, scan_query_params};

fn pair(key: &str, value: &str) -> (String, String) {
    (key.to_string(), value.to_string())
}

#[test]
fn format_json_exact_output() {
    assert_eq!(format_json(r#"{"key":"value"}"#).unwrap(), "{\n  \"key\": \"value\"\n}");
    assert_eq!(
        format_json(r#"{"outer":{"inner":[1,"two"]}}"#).unwrap(),
        "{\n  \"outer\": {\n    \"inner\": [\n      1,\n      \"two\"\n    ]\n  }\n}"
    );
    assert_eq!(format_json(" null ").unwrap(), "null");
}

#[test]
fn format_parsed_json_reports_each_outcome() {
    let parsed = serde_json::from_str::<serde_json::Value>("[true]");
    assert_eq!(format_parsed_json(parsed), Ok("[\n  true\n]".to_string()));
    let failed = serde_json::from_str::<serde_json::Value>("[true");
    let message = failed.as_ref().unwrap_err().to_string();
    assert_eq!(format_parsed_json(failed), Err(format!("JSON parse error: {}", message)));
    let failed = serde_json::from_str::<serde_json::Value>("}");
    let message = failed.as_ref().unwrap_err().to_string();
    assert_eq!(validate_parsed_json(failed), Err(format!("Invalid JSON: {}", message)));
    assert_eq!(validate_parsed_json(serde_json::from_str::<serde_json::Value>("1")), Ok(()));
}

#[test]
fn format_xml_succeeds_where_validation_does() {
    for input in [
        "<a/>",
        "<a><b>t</b><c x=\"1\"/></a>",
        "text only",
        "<a>",
        "<?xml version=\"1.0\"?><r>é</r>",
        "<!-- c --><r><![CDATA[x]]></r>",
        "<a><a><a><a><a><a><a><a><a><a>deep</a></a></a></a></a></a></a></a></a></a>",
    ] {
        assert!(validate_xml(input).is_ok(), "{input}");
        assert!(format_xml(input).is_ok(), "{input}");
    }
    for input in ["<a></b>", "<a", "<!-- open", "<a>&broken</a>"] {
        let refusal = validate_xml(input).unwrap_err();
        assert_eq!(format_xml(input), Err(refusal), "{input}");
    }
}

#[test]
fn format_xml_exact_output() {
    assert_eq!(
        format_xml("<root><child>value</child><empty/></root>").unwrap(),
        "<root>\n  <child>value</child>\n  <empty/>\n</root>"
    );
    assert_eq!(
        format_xml("<a>\n   <b attr=\"1\">\n  <c/>  </b>\n</a>").unwrap(),
        "<a>\n  <b attr=\"1\">\n    <c/>\n  </b>\n</a>"
    );
}

#[test]
fn format_xml_keeps_non_ascii_text() {
    assert_eq!(format_xml("<t>héllo → ✓</t>").unwrap(), "<t>héllo → ✓</t>");
}

#[test]
fn validate_xml_reports_tokenizer_errors() {
    assert!(validate_xml("<root>").is_ok());
    assert!(validate_xml("<root><!-- unterminated").is_err());
    assert!(validate_xml("<a></b>").unwrap_err().starts_with("Invalid XML: "));
    assert!(validate_xml("plain text").is_ok());
}

#[test]
fn xml_error_messages_carry_tokenizer_text() {
    let input = "<a><b></a>";
    let mut reader = quick_xml::Reader::from_str(input);
    reader.config_mut().trim_text(true);
    let error = loop {
        match reader.read_event() {
            Ok(quick_xml::events::Event::Eof) => panic!("the reader found no error"),
            Ok(_) => {}
            Err(error) => break error,
        }
    };
    assert_eq!(validate_xml(input), Err(format!("Invalid XML: {}", error)));
    assert_eq!(format_xml(input), Err(format!("Invalid XML: {}", error)));
}

#[test]
fn format_xml_trims_text_and_keeps_declarations() {
    assert_eq!(
        format_xml("<?xml version=\"1.0\"?>  <r>  padded  <!--c--><![CDATA[ raw ]]></r>").unwrap(),
        "<?xml version=\"1.0\"?>\n<r>padded<!--c--><![CDATA[ raw ]]></r>"
    );
}

#[test]
fn extract_base_url_edge_cases() {
    assert_eq!(extract_base_url("a?b?c"), "a");
    assert_eq!(extract_base_url("?"), "");
    assert_eq!(extract_base_url("héllo/ü?x=1"), "héllo/ü");
    assert_eq!(extract_base_url("no-query#frag"), "no-query#frag");
}

#[test]
fn scan_splits_on_first_equals_and_drops_empty_keys() {
    assert_eq!(
        scan_query_params("x?a=b=c&&=novalue&flag&k=&%41=%42"),
        vec![pair("a", "b=c"), pair("flag", ""), pair("k", ""), pair("A", "B")]
    );
    assert_eq!(scan_query_params("no query"), Vec::<(String, String)>::new());
    assert_eq!(scan_query_params("trailing?"), Vec::<(String, String)>::new());
}

#[test]
fn scan_keeps_text_that_cannot_be_decoded() {
    assert_eq!(decode_lenient("%zz"), "%zz");
    assert_eq!(decode_lenient("100%"), "100%");
    assert_eq!(decode_lenient("%4"), "%4");
    assert_eq!(decode_lenient("%ff"), "%ff");
    assert_eq!(decode_lenient("%e6%97%a5"), "日");
    assert_eq!(decode_lenient("a+b"), "a+b");
    assert_eq!(scan_query_params("x?k=%ff&%fe=v"), vec![pair("k", "%ff"), pair("%fe", "v")]);
}

#[test]
fn strict_parser_keeps_duplicates_and_decodes() {
    assert_eq!(
        parse_query_params("https://example.com/?a=1&a=2&b=x+y&c=%26"),
        vec![pair("a", "1"), pair("a", "2"), pair("b", "x y"), pair("c", "&")]
    );
}

#[test]
fn read_query_params_tells_unreadable_text_apart() {
    assert_eq!(read_query_params(""), Some(vec![]));
    assert_eq!(read_query_params("not a url"), None);
    assert_eq!(read_query_params("not a url?k=v"), Some(vec![pair("k", "v")]));
    assert_eq!(read_query_params("https://example.com"), Some(vec![]));
    assert_eq!(parse_query_params("not a url"), Vec::<(String, String)>::new());
}

#[test]
fn body_json_shape_is_a_tagged_union() {
    assert_eq!(encode_body(&BodyType::Empty), "\"None\"");
    assert_eq!(
        encode_body(&BodyType::Raw { content: "{\"a\":1}".to_string(), subtype: RawSubtype::Json }),
        "{\"Raw\":{\"content\":\"{\\\"a\\\":1}\",\"subtype\":\"Json\"}}"
    );
    assert_eq!(
        encode_body(&BodyType::Raw { content: String::new(), subtype: RawSubtype::JavaScript }),
        "{\"Raw\":{\"content\":\"\",\"subtype\":\"JavaScript\"}}"
    );
    let form = BodyType::FormData(vec![
        FormDataRow { enabled: true, key: "k".to_string(), value: FormDataValue::Text("v".to_string()) },
        FormDataRow {
            enabled: false,
            key: "f".to_string(),
            value: FormDataValue::File { path: "/tmp/x".to_string() },
        },
    ]);
    assert_eq!(
        encode_body(&form),
        "{\"FormData\":[{\"enabled\":true,\"key\":\"k\",\"value\":{\"Text\":\"v\"}},{\"enabled\":false,\"key\":\"f\",\"value\":{\"File\":{\"path\":\"/tmp/x\"}}}]}"
    );
}

#[test]
fn body_json_round_trips_every_kind() {
    for subtype in RawSubtype::all() {
        let body = BodyType::Raw { content: "line\n\"quoted\" ✓".to_string(), subtype };
        match decode_body(&encode_body(&body)) {
            BodyType::Raw { content, subtype: read } => {
                assert_eq!(content, "line\n\"quoted\" ✓");
                assert_eq!(read, subtype);
            }
            other => panic!("expected a raw body, got {:?}", other),
        }
    }
    assert!(matches!(decode_body(&encode_body(&BodyType::Empty)), BodyType::Empty));
    match decode_body(&encode_body(&BodyType::FormData(vec![]))) {
        BodyType::FormData(rows) => assert!(rows.is_empty()),
        other => panic!("expected form data, got {:?}", other),
    }
}

#[test]
fn unreadable_body_falls_back_to_default() {
    for stored in ["", "not json", "\"Other\"", "{\"Raw\":{\"content\":\"x\"}}", "{\"Raw\":1}",
        "{\"Raw\":{\"content\":\"x\",\"subtype\":\"Yaml\"}}", "[]", "{}",
        "{\"FormData\":[{\"enabled\":true,\"key\":\"k\"}]}",
        "{\"FormData\":[{\"enabled\":1,\"key\":\"k\",\"value\":{\"Text\":\"v\"}}]}"]
    {
        match decode_body(stored) {
            BodyType::Raw { content, subtype } => {
                assert_eq!(content, "");
                assert_eq!(subtype, RawSubtype::Json);
            }
            other => panic!("expected the default body for {:?}, got {:?}", stored, other),
        }
    }
}

#[test]
fn body_json_members_are_found_by_name() {
    let stored = "{\"Raw\":{\"subtype\":\"Xml\",\"extra\":null,\"content\":\"<a/>\"}}";
    match decode_body(stored) {
        BodyType::Raw { content, subtype } => {
            assert_eq!(content, "<a/>");
            assert_eq!(subtype, RawSubtype::Xml);
        }
        other => panic!("expected a raw body, got {:?}", other),
    }
}

#[test]
fn body_documents_convert_both_ways() {
    let body = BodyType::Raw { content: "x".to_string(), subtype: RawSubtype::Text };
    let document = body_to_json(&body);
    assert_eq!(
        document,
        JsonValue::Object(vec![JsonMember {
            name: "Raw".to_string(),
            value: JsonValue::Object(vec![
                JsonMember { name: "content".to_string(), value: JsonValue::Text("x".to_string()) },
                JsonMember { name: "subtype".to_string(), value: JsonValue::Text("Text".to_string()) },
            ]),
        }])
    );
    assert!(matches!(body_from_json(&document), Some(BodyType::Raw { .. })));
    assert!(body_from_json(&JsonValue::Null).is_none());
    assert!(body_from_json(&JsonValue::Text("none".to_string())).is_none());
}

#[test]
fn headers_json_is_a_list_of_pairs() {
    let headers = vec![pair("Accept", "*/*"), pair("X-Dup", "1"), pair("X-Dup", "2")];
    assert_eq!(encode_headers(&headers), "[[\"Accept\",\"*/*\"],[\"X-Dup\",\"1\"],[\"X-Dup\",\"2\"]]");
    assert_eq!(decode_headers(&encode_headers(&headers)), headers);
    assert_eq!(encode_headers(&vec![]), "[]");
    assert_eq!(decode_headers("[]"), vec![]);
    assert_eq!(decode_headers("[[\"a\"]]"), vec![]);
    assert_eq!(decode_headers("[[\"a\",1]]"), vec![]);
    assert_eq!(decode_headers("{}"), vec![]);
    assert_eq!(decode_headers("garbage"), vec![]);
    assert_eq!(headers_from_json(&headers_to_json(&headers)), Some(headers));
}

#[test]
fn documents_are_read_and_written_by_serde_json() {
    let document = read_document("{\"n\": 1.5, \"list\": [null, true], \"s\": \"t\"}").unwrap();
    assert_eq!(
        document,
        JsonValue::Object(vec![
            JsonMember { name: "n".to_string(), value: JsonValue::Number("1.5".to_string()) },
            JsonMember {
                name: "list".to_string(),
                value: JsonValue::List(vec![JsonValue::Null, JsonValue::Bool(true)]),
            },
            JsonMember { name: "s".to_string(), value: JsonValue::Text("t".to_string()) },
        ])
    );
    assert_eq!(
        write_document(&document),
        Some("{\"n\":1.5,\"list\":[null,true],\"s\":\"t\"}".to_string())
    );
    assert_eq!(read_document("{"), None);
    assert_eq!(write_document(&JsonValue::Number("12e3".to_string())), Some("12000.0".to_string()));
    assert_eq!(write_document(&JsonValue::Number("twelve".to_string())), None);
    assert_eq!(
        write_document(&JsonValue::List(vec![
            JsonValue::Null,
            JsonValue::Object(vec![JsonMember {
                name: "n".to_string(),
                value: JsonValue::Number("0x10".to_string()),
            }]),
        ])),
        None
    );
    if let JsonValue::Object(fields) = &document {
        assert_eq!(find_member(fields, "s"), Some(&JsonValue::Text("t".to_string())));
        assert_eq!(find_member(fields, "missing"), None);
    } else {
        panic!("expected an object");
    }
}

#[test]
fn history_row_becomes_an_item() {
    let row = HistoryRow {
        id: 7,
        timestamp: "2024-01-02T03:04:05+00:00".to_string(),
        method: "post".to_string(),
        url: "https://example.com/a?b=c".to_string(),
        request_headers: "[[\"Accept\",\"*/*\"]]".to_string(),
        request_body: "{\"Raw\":{\"content\":\"hi\",\"subtype\":\"Text\"}}".to_string(),
        status_code: Some(404),
        duration_ms: Some(12),
        response_headers: Some("[[\"Server\",\"x\"]]".to_string()),
        response_body: Some("missing".to_string()),
    };
    let item = history_item_from_row(row);
    assert_eq!(item.id, 7);
    assert_eq!(item.timestamp, "2024-01-02T03:04:05+00:00");
    assert_eq!(item.request.method, HttpMethod::POST);
    assert_eq!(item.request.url, "https://example.com/a?b=c");
    assert_eq!(item.request.headers, vec![pair("Accept", "*/*")]);
    assert!(matches!(
        &item.request.body,
        BodyType::Raw { content, subtype: RawSubtype::Text } if content == "hi"
    ));
    let response = item.response.unwrap();
    assert_eq!(response.status, Some(404));
    assert_eq!(response.duration_ms, 12);
    assert_eq!(response.headers, vec![pair("Server", "x")]);
    assert_eq!(response.body, "missing");
}

#[test]
fn history_row_with_stale_data_still_becomes_an_item() {
    let row = HistoryRow {
        id: -1,
        timestamp: String::new(),
        method: "TRACE".to_string(),
        url: String::new(),
        request_headers: "oops".to_string(),
        request_body: "oops".to_string(),
        status_code: Some(200),
        duration_ms: None,
        response_headers: None,
        response_body: None,
    };
    let item = history_item_from_row(row);
    assert_eq!(item.request.method, HttpMethod::GET);
    assert!(item.request.headers.is_empty());
    assert!(matches!(
        &item.request.body,
        BodyType::Raw { content, subtype: RawSubtype::Json } if content.is_empty()
    ));
    assert!(item.response.is_none());

    let row = HistoryRow {
        id: 2,
        timestamp: String::new(),
        method: "GET".to_string(),
        url: String::new(),
        request_headers: "[]".to_string(),
        request_body: "\"None\"".to_string(),
        status_code: Some(65536 + 201),
        duration_ms: Some(-1),
        response_headers: Some("bad".to_string()),
        response_body: None,
    };
    let response = history_item_from_row(row).response.unwrap();
    assert_eq!(response.status, Some(201));
    assert_eq!(response.duration_ms, u64::MAX);
    assert!(response.headers.is_empty());
    assert_eq!(response.body, "");
}

#[test]
fn new_history_row_holds_the_columns() {
    let body = BodyType::Empty;
    let row = new_history_row(
        "2024-01-01T00:00:00+00:00".to_string(),
        "GET",
        "https://example.com",
        "[]",
        &body,
        Some(200),
        Some(35),
        Some("[]"),
        None,
    );
    assert_eq!(row.timestamp, "2024-01-01T00:00:00+00:00");
    assert_eq!(row.method, "GET");
    assert_eq!(row.url, "https://example.com");
    assert_eq!(row.request_headers, "[]");
    assert_eq!(row.request_body, "\"None\"");
    assert_eq!(row.status_code, Some(200));
    assert_eq!(row.duration_ms, Some(35));
    assert_eq!(row.response_headers, Some("[]".to_string()));
    assert_eq!(row.response_body, None);
}
