use hive_console_sdk::headers::{check_header_value, plain_header, sensitive_header, Header};

#[test]
fn visible_text_is_a_header_value() {
    assert_eq!(check_header_value("Bearer abc/def=="), Ok(()));
    assert_eq!(check_header_value(""), Ok(()));
    assert_eq!(check_header_value("with\ttab"), Ok(()));
    assert_eq!(check_header_value(" ~"), Ok(()));
}

#[test]
fn bytes_from_128_upwards_are_accepted() {
    assert_eq!(check_header_value("clé"), Ok(()));
    assert_eq!(check_header_value("鍵"), Ok(()));
}

#[test]
fn control_characters_are_refused() {
    assert!(check_header_value("line\nbreak").is_err());
    assert!(check_header_value("\r").is_err());
    assert!(check_header_value("\u{0}").is_err());
    assert!(check_header_value("\u{1f}").is_err());
    assert!(check_header_value("del\u{7f}").is_err());
    let reason = check_header_value("\n").unwrap_err();
    assert!(!reason.is_empty());
}

#[test]
fn header_constructors_set_the_flag() {
    assert_eq!(
        plain_header("Content-Type", "application/json".to_string()),
        Header {
            name: "Content-Type".to_string(),
            value: "application/json".to_string(),
            sensitive: false,
        }
    );
    assert_eq!(
        sensitive_header("X-Hive-CDN-Key", "k".to_string()),
        Header { name: "X-Hive-CDN-Key".to_string(), value: "k".to_string(), sensitive: true }
    );
}
