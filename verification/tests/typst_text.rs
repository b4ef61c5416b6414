use invoicy::typst::{escape_string, option_string};

#[test]
fn escape_string_plain() {
    assert_eq!(escape_string("hello"), "hello");
}

#[test]
fn escape_string_quotes() {
    assert_eq!(escape_string(r#"say "hi""#), r#"say \"hi\""#);
}

#[test]
fn escape_string_backslash() {
    assert_eq!(escape_string(r"path\to\file"), r"path\\to\\file");
}

#[test]
fn option_string_none() {
    assert_eq!(option_string(&None), "none");
}

#[test]
fn option_string_some() {
    assert_eq!(option_string(&Some("value".into())), r#""value""#);
}

#[test]
fn option_string_some_with_quotes() {
    assert_eq!(option_string(&Some(r#"say "hi""#.into())), r#""say \"hi\"""#);
}

#[test]
fn escape_string_both_kinds_in_order() {
    assert_eq!(escape_string(r#"a\"b"#), r#"a\\\"b"#);
    assert_eq!(escape_string(""), "");
}

#[test]
fn escaped_strings_stay_apart() {
    // Escaping is injective: different texts never render the same.
    let a = escape_string(r#"\""#);
    let b = escape_string(r#"""#);
    assert_ne!(a, b);
}
