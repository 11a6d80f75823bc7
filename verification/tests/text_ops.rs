use multiproxy::text::{str_contains_ci, str_eq_ci, to_lower_char};

#[test]
fn lowercase_folds_ascii_only() {
    assert_eq!(to_lower_char('A'), 'a');
    assert_eq!(to_lower_char('Z'), 'z');
    assert_eq!(to_lower_char('a'), 'a');
    assert_eq!(to_lower_char('0'), '0');
    assert_eq!(to_lower_char('-'), '-');
    assert_eq!(to_lower_char('é'), 'é');
}

#[test]
fn case_insensitive_equality() {
    assert!(str_eq_ci("WebSocket", "websocket"));
    assert!(str_eq_ci("", ""));
    assert!(!str_eq_ci("websocket", "websockets"));
    assert!(!str_eq_ci("websocket", "websockex"));
}

#[test]
fn case_insensitive_containment() {
    assert!(str_contains_ci("keep-alive, Upgrade", "upgrade"));
    assert!(str_contains_ci("UPGRADE", "upgrade"));
    assert!(str_contains_ci("xupgradey", "upgrade"));
    assert!(str_contains_ci("anything", ""));
    assert!(!str_contains_ci("upgrad", "upgrade"));
    assert!(!str_contains_ci("", "upgrade"));
    assert!(!str_contains_ci("up grade", "upgrade"));
}
