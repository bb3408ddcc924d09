use poopman::code_formatter::{format_json, format_xml, validate_json, validate_xml};

#[test]
fn test_format_json_simple() {
    let input = r#"{"key":"value"}"#;
    let result = format_json(input).unwrap();
    assert!(result.contains("\"key\""));
    assert!(result.contains("\"value\""));
    assert!(result.contains('\n')); // Has newlines
}

#[test]
fn test_format_json_nested() {
    let input = r#"{"outer":{"inner":"value"}}"#;
    let result = format_json(input).unwrap();
    assert!(result.contains("\"outer\""));
    assert!(result.contains("\"inner\""));
}

#[test]
fn test_format_json_array() {
    let input = r#"[1,2,3]"#;
    let result = format_json(input).unwrap();
    assert!(result.contains("1"));
    assert!(result.contains("2"));
    assert!(result.contains("3"));
}

#[test]
fn test_format_json_invalid() {
    let input = r#"{"key": invalid}"#;
    let result = format_json(input);
    assert!(result.is_err());
    assert!(result.unwrap_err().contains("parse error"));
}

#[test]
fn test_format_json_empty() {
    let result = format_json("");
    assert!(result.is_err());
    assert!(result.unwrap_err().contains("Empty"));
}

#[test]
fn test_validate_json_valid() {
    assert!(validate_json(r#"{"key":"value"}"#).is_ok());
    assert!(validate_json(r#"[1,2,3]"#).is_ok());
    assert!(validate_json(r#"null"#).is_ok());
}

#[test]
fn test_validate_json_invalid() {
    let result = validate_json(r#"{"key": }"#);
    assert!(result.is_err());
}

#[test]
fn test_validate_json_empty() {
    // Empty should be valid (no content)
    assert!(validate_json("").is_ok());
    assert!(validate_json("   ").is_ok());
}

#[test]
fn test_format_xml_simple() {
    let input = r#"<root><child>value</child></root>"#;
    let result = format_xml(input).unwrap();
    assert!(result.contains("<root>"));
    assert!(result.contains("<child>"));
    assert!(result.contains("value"));
}

#[test]
fn test_format_xml_with_attributes() {
    let input = r#"<root attr="value"><child>text</child></root>"#;
    let result = format_xml(input).unwrap();
    assert!(result.contains("attr"));
    assert!(result.contains("<child>"));
}

#[test]
fn test_format_xml_invalid() {
    let input = r#"<root><child>value</root>"#; // Mismatched tags
    let result = format_xml(input);
    assert!(result.is_err());
}

#[test]
fn test_format_xml_empty() {
    let result = format_xml("");
    assert!(result.is_err());
    assert!(result.unwrap_err().contains("Empty"));
}

#[test]
fn test_validate_xml_valid() {
    assert!(validate_xml(r#"<root></root>"#).is_ok());
    assert!(validate_xml(r#"<root><child/></root>"#).is_ok());
}

#[test]
fn test_validate_xml_invalid() {
    let result = validate_xml(r#"<root><child></root>"#);
    assert!(result.is_err());
}

#[test]
fn test_validate_xml_empty() {
    // Empty should be valid
    assert!(validate_xml("").is_ok());
    assert!(validate_xml("   ").is_ok());
}
