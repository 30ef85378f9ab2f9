use lune_term::text::{decimal, join, str_eq};

#[test]
fn decimal_renderings() {
    assert_eq!(decimal(0), "0");
    assert_eq!(decimal(7), "7");
    assert_eq!(decimal(10), "10");
    assert_eq!(decimal(1907), "1907");
    assert_eq!(decimal(usize::MAX), usize::MAX.to_string());
}

#[test]
fn joining() {
    let parts = vec!["a".to_string(), "bc".to_string(), "d".to_string()];
    assert_eq!(join(&parts, ", "), "a, bc, d");
    assert_eq!(join(&Vec::new(), ", "), "");
    assert_eq!(join(&vec!["x".to_string()], "-"), "x");
}

#[test]
fn string_equality() {
    assert!(str_eq("clear", "clear"));
    assert!(!str_eq("clear", "clearEnd"));
    assert!(!str_eq("é", "e"));
    assert!(str_eq("", ""));
}
