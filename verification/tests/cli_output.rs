use waystone::cli_output::{escape_json, json_error, json_optional_string, json_string_array};

#[test]
fn escapes_json_control_characters_used_by_commands() {
    assert_eq!(escape_json("a\\b\"c\nd"), "a\\\\b\\\"c\\nd");
}

#[test]
fn renders_optional_string_values() {
    assert_eq!(json_optional_string(Some("capsule")), "\"capsule\"");
    assert_eq!(json_optional_string(None), "null");
}

#[test]
fn renders_string_arrays() {
    let values = vec!["one".to_string(), "two".to_string()];
    assert_eq!(json_string_array(&values), "\"one\",\"two\"");
}

#[test]
fn renders_standard_error_envelope() {
    assert_eq!(
        json_error("dry_run", "missing target"),
        "{\"status\":\"error\",\"schema\":1,\"error\":{\"code\":\"dry_run_failed\",\"message\":\"missing target\"}}"
    );
}

#[test]
fn empty_string_array_renders_nothing() {
    let values: Vec<String> = Vec::new();
    assert_eq!(json_string_array(&values), "");
}

#[test]
fn escapes_inside_optional_and_array_values() {
    assert_eq!(json_optional_string(Some("a\"b")), "\"a\\\"b\"");
    let values = vec!["x\ny".to_string()];
    assert_eq!(json_string_array(&values), "\"x\\ny\"");
    assert_eq!(escape_json("plain"), "plain");
}

#[test]
fn escaped_text_stays_on_one_line() {
    let escaped = escape_json("first\nsecond\n\nthird \"quoted\" back\\slash");
    assert!(!escaped.contains('\n'));
    assert_eq!(escaped, "first\\nsecond\\n\\nthird \\\"quoted\\\" back\\\\slash");
    let envelope = json_error("dry_run", "line one\nline two");
    assert!(!envelope.contains('\n'));
}
