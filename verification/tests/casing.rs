use enum_as_inner::casing::{function_name_for, normalize, prefixed};

#[test]
fn normalize_splits_before_an_upper_case_letter_after_a_lower_case_one() {
    assert_eq!(normalize("CamelCase"), "camel_case");
    assert_eq!(normalize("abcDEF"), "abc_def");
}

#[test]
fn normalize_ends_an_acronym_before_its_last_letter() {
    assert_eq!(normalize("XMLIsNotCool"), "xml_is_not_cool");
    assert_eq!(normalize("XMLHttpRequest"), "xml_http_request");
    assert_eq!(normalize("YMCA"), "ymca");
}

#[test]
fn normalize_keeps_single_separators() {
    assert_eq!(normalize("Rust_IsCoolThough"), "rust_is_cool_though");
    assert_eq!(normalize("hello__world"), "hello_world");
    assert_eq!(normalize("_leading_and_trailing_"), "leading_and_trailing");
    assert_eq!(normalize("SHOUTY_SNAKE_CASE"), "shouty_snake_case");
}

#[test]
fn normalize_leaves_digits_with_the_segment_before_them() {
    assert_eq!(normalize("FIELD_NAME11"), "field_name11");
    assert_eq!(normalize("abc123def456"), "abc123def456");
    assert_eq!(normalize("Utf8Text"), "utf8_text");
}

#[test]
fn normalize_changes_what_is_not_normal() {
    let identifier = "One";
    assert_ne!(normalize(identifier), identifier);
    assert_eq!(normalize(identifier), "one");
}

#[test]
fn normalize_gives_the_same_name_each_time() {
    for identifier in ["One", "XMLIsNotCool", "Rust_IsCoolThough", "YMCA", "a1B2"] {
        assert_eq!(normalize(identifier), normalize(identifier));
    }
}

#[test]
fn normalize_leaves_a_normal_name_as_it_is() {
    for identifier in ["One", "XMLIsNotCool", "Rust_IsCoolThough", "YMCA", "abc123DEf456"] {
        let once = normalize(identifier);
        assert_eq!(normalize(&once), once);
    }
    assert_eq!(normalize("xml_is_not_cool"), "xml_is_not_cool");
}

#[test]
fn names_that_differ_by_case_alone_collide() {
    assert_eq!(function_name_for("Value"), function_name_for("value"));
}

#[test]
fn prefixed_puts_as_in_front() {
    assert_eq!(prefixed("one"), "as_one");
    assert_eq!(prefixed(""), "as_");
}

#[test]
fn function_name_is_as_and_the_normal_name() {
    assert_eq!(function_name_for("One"), "as_one");
    assert_eq!(function_name_for("XMLIsNotCool"), "as_xml_is_not_cool");
    assert_eq!(function_name_for("Rust_IsCoolThough"), "as_rust_is_cool_though");
    assert_eq!(function_name_for("YMCA"), "as_ymca");
    for alternative in ["One", "XMLIsNotCool", "Rust_IsCoolThough"] {
        assert_eq!(function_name_for(alternative), format!("as_{}", normalize(alternative)));
    }
}
