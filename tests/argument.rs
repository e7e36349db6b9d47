use zsak::argument::{
    argument_source, parse_unsigned, resolve_argument, resolve_bool_argument,
    resolve_optional_argument, ArgumentError, ArgumentSource, ArgumentValue, Provenance,
};

fn file_with(contents: &str) -> Option<ArgumentSource> {
    Some(ArgumentSource::File { path: "value.txt".to_string(), contents: Some(contents.to_string()) })
}

#[test]
fn file_mode_parses_contents() {
    let r = resolve_argument::<u64>("X", file_with("42")).unwrap();
    assert_eq!(r.value, 42);
    assert_eq!(r.provenance, Provenance::File);
}

#[test]
fn file_mode_parse_error_names_argument() {
    match resolve_argument::<u64>("X", file_with("abc")) {
        Err(ArgumentError::Invalid { name, text }) => {
            assert_eq!(name, "X");
            assert_eq!(text, "abc");
        }
        other => panic!("unexpected {:?}", other),
    }
}

#[test]
fn unreadable_file_names_path() {
    let source = Some(ArgumentSource::File { path: "/missing".to_string(), contents: None });
    match resolve_argument::<String>("VALUE", source) {
        Err(ArgumentError::Unreadable { path }) => assert_eq!(path, "/missing"),
        other => panic!("unexpected {:?}", other),
    }
}

#[test]
fn missing_required_argument_is_an_error() {
    match resolve_argument::<String>("KEY_EXPR", None) {
        Err(ArgumentError::Missing { name }) => assert_eq!(name, "KEY_EXPR"),
        other => panic!("unexpected {:?}", other),
    }
}

#[test]
fn literal_text_is_taken_as_is() {
    let r = resolve_argument::<String>("VALUE", Some(ArgumentSource::Literal("hi {N}".to_string())))
        .unwrap();
    assert_eq!(r.value, "hi {N}");
    assert_eq!(r.provenance, Provenance::Literal);
}

#[test]
fn optional_argument_absent_only_when_not_given() {
    assert!(resolve_optional_argument::<u32>("count", None).unwrap().is_none());
    let given = resolve_optional_argument::<u32>("count", Some(ArgumentSource::Literal("10".to_string())))
        .unwrap()
        .unwrap();
    assert_eq!(given.value, 10);
    match resolve_optional_argument::<u32>("count", Some(ArgumentSource::Literal("ten".to_string()))) {
        Err(ArgumentError::Invalid { name, .. }) => assert_eq!(name, "count"),
        other => panic!("unexpected {:?}", other),
    }
}

#[test]
fn flags_default_to_false() {
    assert!(!resolve_bool_argument(None));
    assert!(!resolve_bool_argument(Some(false)));
    assert!(resolve_bool_argument(Some(true)));
}

#[test]
fn source_follows_file_mode() {
    match argument_source("a.txt".to_string(), true, Some("body".to_string())) {
        ArgumentSource::File { path, contents } => {
            assert_eq!(path, "a.txt");
            assert_eq!(contents.as_deref(), Some("body"));
        }
        other => panic!("unexpected {:?}", other),
    }
    match argument_source("literal".to_string(), false, None) {
        ArgumentSource::Literal(t) => assert_eq!(t, "literal"),
        other => panic!("unexpected {:?}", other),
    }
}

#[test]
fn unsigned_text_rules() {
    assert_eq!(parse_unsigned("0", u64::MAX), Some(0));
    assert_eq!(parse_unsigned("+17", u64::MAX), Some(17));
    assert_eq!(parse_unsigned("18446744073709551615", u64::MAX), Some(u64::MAX));
    assert_eq!(parse_unsigned("18446744073709551616", u64::MAX), None);
    assert_eq!(parse_unsigned("", u64::MAX), None);
    assert_eq!(parse_unsigned("+", u64::MAX), None);
    assert_eq!(parse_unsigned("-1", u64::MAX), None);
    assert_eq!(parse_unsigned(" 1", u64::MAX), None);
    assert_eq!(parse_unsigned("42\n", u64::MAX), None);
    assert_eq!(parse_unsigned("4294967296", u32::MAX as u64), None);
    assert_eq!(<u32 as ArgumentValue>::parse_text("4294967295"), Some(u32::MAX));
    assert_eq!(<u32 as ArgumentValue>::parse_text("4294967296"), None);
}

#[test]
fn unsigned_parsing_agrees_with_std() {
    for text in ["0", "7", "+7", "007", "123456789", "18446744073709551615", "18446744073709551616", "", "+", "-3", "1_000", "12a", " 5"] {
        assert_eq!(<u64 as ArgumentValue>::parse_text(text), text.parse::<u64>().ok(), "{}", text);
        assert_eq!(<u32 as ArgumentValue>::parse_text(text), text.parse::<u32>().ok(), "{}", text);
    }
}
