use poopman::code_formatter::{format_json, format_xml, validate_json, validate_xml};
use poopman::db::{decode_body, encode_body};
use poopman::types::{BodyType, FormDataRow, FormDataValue};
use poopman::url_params::{
    build_url_with_params, params_equal, parse_query_params, scan_query_params, QueryParam,
};

fn pair(key: &str, value: &str) -> (String, String) {
    (key.to_string(), value.to_string())
}

#[test]
fn round_trip_through_strict_parser() {
    let params = vec![
        QueryParam::new("q", "rust & verus", true),
        QueryParam::new("lang", "日本語", true),
        QueryParam::new("empty", "", true),
        QueryParam::new("q", "again", true),
    ];
    let url = build_url_with_params("https://example.com/search", &params);
    assert_eq!(
        parse_query_params(&url),
        vec![
            pair("q", "rust & verus"),
            pair("lang", "日本語"),
            pair("empty", ""),
            pair("q", "again"),
        ]
    );
}

#[test]
fn round_trip_through_scanner() {
    let params = vec![
        QueryParam::new("a b", "c=d&e", true),
        QueryParam::new("off", "x", false),
        QueryParam::new("", "no key", true),
        QueryParam::new("pct", "100%", true),
        QueryParam::new("plus", "1+1", true),
    ];
    let url = build_url_with_params("example.com/path", &params);
    assert_eq!(url, "example.com/path?a%20b=c%3Dd%26e&pct=100%25&plus=1%2B1");
    let expected = vec![pair("a b", "c=d&e"), pair("pct", "100%"), pair("plus", "1+1")];
    assert_eq!(parse_query_params(&url), expected);
    assert_eq!(scan_query_params(&url), expected);
}

#[test]
fn round_trip_without_params_keeps_base() {
    let url = build_url_with_params("example.com/path", &[]);
    assert_eq!(url, "example.com/path");
    assert_eq!(parse_query_params(&url), Vec::<(String, String)>::new());
}

#[test]
fn format_json_is_idempotent() {
    for input in [
        r#"{"b":1,"a":[true,null,{"x":"y"}]}"#,
        "[1, 2.5, -3e2]",
        r#""text""#,
        "{}",
        "[]",
        "  42  ",
        "[0.1, 1e100, 2.2250738585072014e-308, 123456789012345678901234567890, -0.0, 1E2]",
        "[0.30000000000000004, 5e-324, 1.7976931348623157e308, 9007199254740993]",
        r#"{"k":"\u00e9\n\t\"\\","k2":"\ud83d\ude00"}"#,
    ] {
        let once = format_json(input).unwrap();
        let twice = format_json(&once).unwrap();
        assert_eq!(once, twice);
    }
}

#[test]
fn format_json_preserves_key_order() {
    assert_eq!(
        format_json(r#"{"b":1,"a":2}"#).unwrap(),
        "{\n  \"b\": 1,\n  \"a\": 2\n}"
    );
    assert_eq!(format_json("[1,2]").unwrap(), "[\n  1,\n  2\n]");
}

#[test]
fn format_and_validate_json_agree() {
    for input in [r#"{"k":"v"}"#, "[1,2,3]", "null", "12", r#""s""#] {
        assert!(format_json(input).is_ok());
        assert!(validate_json(input).is_ok());
    }
    for input in [r#"{"k": }"#, "[1,2", "nul", "{'a':1}", "1 2"] {
        assert!(format_json(input).is_err());
        assert!(validate_json(input).is_err());
    }
    // Numbers of any size and kind are printed once they are parsed.
    for input in ["1e400", "-1e400", "[1e-400, 18446744073709551616, -9223372036854775809]"] {
        assert_eq!(format_json(input).is_ok(), validate_json(input).is_ok(), "{input}");
    }
}

#[test]
fn json_error_messages_carry_parser_text() {
    let format_error = format_json("[1,").unwrap_err();
    assert!(format_error.starts_with("JSON parse error: "));
    assert!(format_error.len() > "JSON parse error: ".len());
    let validate_error = validate_json("[1,").unwrap_err();
    assert!(validate_error.starts_with("Invalid JSON: "));
    assert_eq!(
        &format_error["JSON parse error: ".len()..],
        &validate_error["Invalid JSON: ".len()..]
    );
}

#[test]
fn blank_input_special_cases() {
    for blank in ["", "   ", "\n\t ", "\u{a0}\u{2003}"] {
        assert_eq!(validate_json(blank), Ok(()));
        assert_eq!(validate_xml(blank), Ok(()));
        assert_eq!(format_json(blank), Err("Empty input".to_string()));
        assert_eq!(format_xml(blank), Err("Empty input".to_string()));
    }
}

#[test]
fn params_equal_ignores_placeholders_anywhere() {
    let with = vec![pair("", ""), pair("a", "b"), pair("", ""), pair("c", ""), pair("", "")];
    let without = vec![pair("a", "b"), pair("c", "")];
    assert!(params_equal(&with, &without));
    assert!(params_equal(&without, &with));
    assert!(!params_equal(&with, &[pair("a", "b")]));
    assert!(!params_equal(&[pair("", "v")], &[]));
}

#[test]
fn disabled_params_excluded_from_url() {
    let params = vec![QueryParam::new("a", "b", true), QueryParam::new("c", "d", false)];
    assert_eq!(build_url_with_params("", &params), "?a=b");
}

#[test]
fn basic_query_round_trip() {
    let parsed = parse_query_params("https://example.com?foo=bar&baz=qux");
    assert_eq!(parsed, vec![pair("foo", "bar"), pair("baz", "qux")]);
    let params: Vec<QueryParam> =
        parsed.iter().map(|(k, v)| QueryParam::new(k, v, true)).collect();
    assert_eq!(
        build_url_with_params("https://example.com", &params),
        "https://example.com?foo=bar&baz=qux"
    );
}

#[test]
fn special_characters_are_encoded() {
    let params = vec![
        QueryParam::new("name", "hello world", true),
        QueryParam::new("special", "a&b=c", true),
    ];
    assert_eq!(
        build_url_with_params("https://example.com/api", &params),
        "https://example.com/api?name=hello%20world&special=a%26b%3Dc"
    );
}

#[test]
fn malformed_xml_is_rejected() {
    let input = "<root><child>value</root>";
    assert!(format_xml(input).is_err());
    let message = validate_xml(input).unwrap_err();
    assert!(message.starts_with("Invalid XML: "));
    assert_eq!(format_xml(input), Err(message));
}

#[test]
fn stored_form_data_is_read_back() {
    let body = BodyType::FormData(vec![
        FormDataRow {
            enabled: true,
            key: "name".to_string(),
            value: FormDataValue::Text("va\"lue\n".to_string()),
        },
        FormDataRow {
            enabled: false,
            key: "upload".to_string(),
            value: FormDataValue::File { path: "C:\\tmp\\file.txt".to_string() },
        },
    ]);
    let stored = encode_body(&body);
    match decode_body(&stored) {
        BodyType::FormData(rows) => {
            assert_eq!(rows.len(), 2);
            assert!(rows[0].enabled);
            assert_eq!(rows[0].key, "name");
            assert_eq!(rows[0].value, FormDataValue::Text("va\"lue\n".to_string()));
            assert!(!rows[1].enabled);
            assert_eq!(rows[1].key, "upload");
            assert_eq!(
                rows[1].value,
                FormDataValue::File { path: "C:\\tmp\\file.txt".to_string() }
            );
        }
        other => panic!("expected form data, got {:?}", other),
    }
}
