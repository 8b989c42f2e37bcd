use waystone::validation::{error, warning, Severity, ValidationReport};

#[test]
fn report_is_valid_exactly_when_no_issue_is_an_error() {
    let only_warnings = ValidationReport::from_issues(vec![
        warning("w1", "first".to_string(), None),
        warning("w2", "second".to_string(), Some("field".to_string())),
    ]);
    assert!(only_warnings.valid);
    assert!(only_warnings.errors.is_empty());
    assert_eq!(only_warnings.warnings.len(), 2);

    let mixed = ValidationReport::from_issues(vec![
        warning("w", "kept second".to_string(), None),
        error("e", "an error".to_string(), None),
        warning("w", "kept last".to_string(), None),
    ]);
    assert!(!mixed.valid);
    assert_eq!(mixed.errors.len(), 1);
    assert_eq!(mixed.errors[0].severity, Severity::Error);
    let messages: Vec<&str> = mixed.warnings.iter().map(|w| w.message.as_str()).collect();
    assert_eq!(messages, vec!["kept second", "kept last"]);
}
