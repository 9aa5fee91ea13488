use enum_as_inner::fresh::{decimal_text, positional_binder};

#[test]
fn decimal_text_writes_numerals() {
    assert_eq!(decimal_text(0), "0");
    assert_eq!(decimal_text(7), "7");
    assert_eq!(decimal_text(9), "9");
    assert_eq!(decimal_text(10), "10");
    assert_eq!(decimal_text(109), "109");
    assert_eq!(decimal_text(12345), "12345");
    assert_eq!(decimal_text(usize::MAX), usize::MAX.to_string());
}

#[test]
fn positional_binder_names_the_position() {
    assert_eq!(positional_binder(0), "match_0");
    assert_eq!(positional_binder(1), "match_1");
    assert_eq!(positional_binder(11), "match_11");
}

#[test]
fn positional_binders_differ() {
    let names: Vec<String> = (0..200).map(positional_binder).collect();
    for (i, first) in names.iter().enumerate() {
        for second in &names[i + 1..] {
            assert_ne!(first, second);
        }
    }
}
