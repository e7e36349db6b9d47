use zsak::text::{decimal_string, same_text, substitute_placeholder};

#[test]
fn decimal_renders_digits() {
    assert_eq!(decimal_string(0), "0");
    assert_eq!(decimal_string(7), "7");
    assert_eq!(decimal_string(10), "10");
    assert_eq!(decimal_string(4096), "4096");
    assert_eq!(decimal_string(u64::MAX), "18446744073709551615");
}

#[test]
fn placeholder_replaced_everywhere() {
    assert_eq!(substitute_placeholder("hello {N}", "3"), "hello 3");
    assert_eq!(substitute_placeholder("{N}-{N}", "12"), "12-12");
    assert_eq!(substitute_placeholder("no marker", "5"), "no marker");
    assert_eq!(substitute_placeholder("", "5"), "");
    assert_eq!(substitute_placeholder("{N", "5"), "{N");
    assert_eq!(substitute_placeholder("{{N}}", "5"), "{5}");
    assert_eq!(substitute_placeholder("é{N}ü", "9"), "é9ü");
}

#[test]
fn same_text_compares_characters() {
    assert!(same_text("abc", "abc"));
    assert!(!same_text("abc", "abd"));
    assert!(!same_text("abc", "ab"));
    assert!(same_text("", ""));
}
