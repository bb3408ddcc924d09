use poopman::url_params::{
    build_url_with_params, extract_base_url, params_equal, parse_query_params, QueryParam,
};

#[test]
fn test_extract_base_url_with_query() {
    assert_eq!(
        extract_base_url("https://example.com/api?foo=bar"),
        "https://example.com/api"
    );
}

#[test]
fn test_extract_base_url_without_query() {
    assert_eq!(
        extract_base_url("https://example.com/api"),
        "https://example.com/api"
    );
}

#[test]
fn test_extract_base_url_empty() {
    assert_eq!(extract_base_url(""), "");
}

#[test]
fn test_extract_base_url_only_query() {
    assert_eq!(extract_base_url("?foo=bar"), "");
}

#[test]
fn test_parse_empty_url() {
    assert_eq!(parse_query_params(""), Vec::<(String, String)>::new());
}

#[test]
fn test_parse_url_without_query() {
    assert_eq!(
        parse_query_params("https://example.com/api"),
        Vec::<(String, String)>::new()
    );
}

#[test]
fn test_parse_url_with_single_param() {
    assert_eq!(
        parse_query_params("https://example.com?foo=bar"),
        vec![("foo".to_string(), "bar".to_string())]
    );
}

#[test]
fn test_parse_url_with_multiple_params() {
    assert_eq!(
        parse_query_params("https://example.com?foo=bar&baz=qux"),
        vec![
            ("foo".to_string(), "bar".to_string()),
            ("baz".to_string(), "qux".to_string())
        ]
    );
}

#[test]
fn test_parse_url_with_encoded_params() {
    assert_eq!(
        parse_query_params("https://example.com?name=hello%20world&key=a%26b"),
        vec![
            ("name".to_string(), "hello world".to_string()),
            ("key".to_string(), "a&b".to_string())
        ]
    );
}

#[test]
fn test_parse_url_with_empty_value() {
    assert_eq!(
        parse_query_params("https://example.com?foo=&bar=baz"),
        vec![
            ("foo".to_string(), "".to_string()),
            ("bar".to_string(), "baz".to_string())
        ]
    );
}

#[test]
fn test_parse_partial_url_with_query() {
    // Incomplete URL that can't be parsed by Url::parse
    assert_eq!(
        parse_query_params("example.com?foo=bar"),
        vec![("foo".to_string(), "bar".to_string())]
    );
}

#[test]
fn test_parse_just_query_string() {
    assert_eq!(
        parse_query_params("?foo=bar&baz=qux"),
        vec![
            ("foo".to_string(), "bar".to_string()),
            ("baz".to_string(), "qux".to_string())
        ]
    );
}

#[test]
fn test_build_url_empty_params() {
    assert_eq!(
        build_url_with_params("https://example.com/api", &[]),
        "https://example.com/api"
    );
}

#[test]
fn test_build_url_with_enabled_params() {
    let params = vec![
        QueryParam::new("foo", "bar", true),
        QueryParam::new("baz", "qux", true),
    ];
    assert_eq!(
        build_url_with_params("https://example.com/api", &params),
        "https://example.com/api?foo=bar&baz=qux"
    );
}

#[test]
fn test_build_url_with_disabled_params() {
    let params = vec![
        QueryParam::new("foo", "bar", true),
        QueryParam::new("disabled", "value", false),
        QueryParam::new("baz", "qux", true),
    ];
    assert_eq!(
        build_url_with_params("https://example.com/api", &params),
        "https://example.com/api?foo=bar&baz=qux"
    );
}

#[test]
fn test_build_url_all_disabled() {
    let params = vec![
        QueryParam::new("foo", "bar", false),
        QueryParam::new("baz", "qux", false),
    ];
    assert_eq!(
        build_url_with_params("https://example.com/api", &params),
        "https://example.com/api"
    );
}

#[test]
fn test_build_url_with_empty_key() {
    let params = vec![
        QueryParam::new("foo", "bar", true),
        QueryParam::new("", "ignored", true), // Empty key should be skipped
        QueryParam::new("baz", "qux", true),
    ];
    assert_eq!(
        build_url_with_params("https://example.com/api", &params),
        "https://example.com/api?foo=bar&baz=qux"
    );
}

#[test]
fn test_build_url_with_special_chars() {
    let params = vec![
        QueryParam::new("name", "hello world", true),
        QueryParam::new("special", "a&b=c", true),
    ];
    assert_eq!(
        build_url_with_params("https://example.com/api", &params),
        "https://example.com/api?name=hello%20world&special=a%26b%3Dc"
    );
}

#[test]
fn test_build_url_empty_base() {
    let params = vec![QueryParam::new("foo", "bar", true)];
    assert_eq!(build_url_with_params("", &params), "?foo=bar");
}

#[test]
fn test_params_equal_same() {
    let params1 = vec![
        ("foo".to_string(), "bar".to_string()),
        ("baz".to_string(), "qux".to_string()),
    ];
    let params2 = vec![
        ("foo".to_string(), "bar".to_string()),
        ("baz".to_string(), "qux".to_string()),
    ];
    assert!(params_equal(&params1, &params2));
}

#[test]
fn test_params_equal_different() {
    let params1 = vec![("foo".to_string(), "bar".to_string())];
    let params2 = vec![("foo".to_string(), "different".to_string())];
    assert!(!params_equal(&params1, &params2));
}

#[test]
fn test_params_equal_ignores_empty() {
    let params1 = vec![
        ("foo".to_string(), "bar".to_string()),
        ("".to_string(), "".to_string()), // Empty entry
    ];
    let params2 = vec![("foo".to_string(), "bar".to_string())];
    assert!(params_equal(&params1, &params2));
}

#[test]
fn test_params_equal_both_empty() {
    let params1: Vec<(String, String)> = vec![];
    let params2: Vec<(String, String)> = vec![];
    assert!(params_equal(&params1, &params2));
}

#[test]
fn test_params_equal_order_matters() {
    let params1 = vec![
        ("foo".to_string(), "bar".to_string()),
        ("baz".to_string(), "qux".to_string()),
    ];
    let params2 = vec![
        ("baz".to_string(), "qux".to_string()),
        ("foo".to_string(), "bar".to_string()),
    ];
    assert!(!params_equal(&params1, &params2));
}
