use dockteur::configuration::sanitize;

#[test]
fn health_checker_string_test_non_empty_string_sanitization() {
    let result = sanitize("test");

    assert_eq!(Some("test".to_string()), result)
}

#[test]
fn health_checker_string_test_empty_string_sanitization() {
    let result = sanitize("");

    assert_eq!(None, result)
}

#[test]
fn health_checker_string_test_blank_string_sanitization() {
    let result = sanitize(" ");

    assert_eq!(None, result)
}
