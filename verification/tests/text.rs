use engine_relay::text::{
    append_decimal, decimal_string, join_parts, push_number, push_optional_text, push_raw,
    push_text, quote_all, render, EncodeError, Fragment,
};

#[test]
fn decimal_of_zero_is_a_single_digit() {
    assert_eq!(decimal_string(0), "0");
}

#[test]
fn decimal_of_small_numbers() {
    assert_eq!(decimal_string(7), "7");
    assert_eq!(decimal_string(9), "9");
    assert_eq!(decimal_string(10), "10");
    assert_eq!(decimal_string(11), "11");
    assert_eq!(decimal_string(100), "100");
    assert_eq!(decimal_string(1234567890), "1234567890");
}

#[test]
fn decimal_of_the_largest_number() {
    assert_eq!(decimal_string(u64::MAX), "18446744073709551615");
}

#[test]
fn decimal_agrees_with_serde_json() {
    for n in [0u64, 1, 9, 10, 99, 100, 4096, 1_000_000_007, u64::MAX - 1, u64::MAX] {
        assert_eq!(decimal_string(n), serde_json::to_string(&n).unwrap());
    }
}

#[test]
fn append_decimal_keeps_what_was_there() {
    let mut out = String::from("id=");
    append_decimal(&mut out, 305);
    assert_eq!(out, "id=305");
}

#[test]
fn push_helpers_append_one_fragment_each() {
    let mut out: Vec<Fragment> = Vec::new();
    push_raw(&mut out, "{\"a\":");
    push_text(&mut out, "b");
    push_number(&mut out, 12);
    push_optional_text(&mut out, &Some(String::from("c")));
    push_optional_text(&mut out, &None);
    assert_eq!(
        out,
        vec![
            Fragment::Raw(String::from("{\"a\":")),
            Fragment::Text(String::from("b")),
            Fragment::Raw(String::from("12")),
            Fragment::Text(String::from("c")),
            Fragment::Raw(String::from("null")),
        ]
    );
}

#[test]
fn render_of_nothing_is_empty() {
    let fragments: Vec<Fragment> = Vec::new();
    assert_eq!(render(&fragments), Ok(String::new()));
}

#[test]
fn render_quotes_text_and_copies_raw() {
    let fragments = vec![
        Fragment::Raw(String::from("{\"k\":")),
        Fragment::Text(String::from("v")),
        Fragment::Raw(String::from("}")),
    ];
    assert_eq!(render(&fragments), Ok(String::from("{\"k\":\"v\"}")));
}

#[test]
fn render_escapes_what_json_requires() {
    let fragments = vec![Fragment::Text(String::from("a\"b\\c\nd\te\u{1}"))];
    assert_eq!(render(&fragments), Ok(String::from("\"a\\\"b\\\\c\\nd\\te\\u0001\"")));
}

#[test]
fn render_leaves_raw_text_unquoted() {
    let fragments = vec![Fragment::Raw(String::from("a\"b"))];
    assert_eq!(render(&fragments), Ok(String::from("a\"b")));
}

#[test]
fn render_keeps_characters_outside_ascii() {
    let fragments = vec![Fragment::Text(String::from("Zürich ✓"))];
    assert_eq!(render(&fragments), Ok(String::from("\"Zürich ✓\"")));
}

#[test]
fn rendered_text_reads_back_as_the_string() {
    let value = String::from("line one\nline \"two\" \\ end");
    let fragments = vec![Fragment::Text(value.clone())];
    let text = render(&fragments).unwrap();
    let back: String = serde_json::from_str(&text).unwrap();
    assert_eq!(back, value);
}

#[test]
fn quote_all_gives_one_part_for_each_fragment() {
    let fragments = vec![
        Fragment::Raw(String::from("[")),
        Fragment::Text(String::from("x")),
        Fragment::Raw(String::from(",")),
        Fragment::Text(String::new()),
        Fragment::Raw(String::from("]")),
    ];
    assert_eq!(
        quote_all(&fragments),
        Ok(vec![
            String::from("["),
            String::from("\"x\""),
            String::from(","),
            String::from("\"\""),
            String::from("]"),
        ])
    );
}

#[test]
fn parts_are_joined_in_order() {
    let parts = vec![String::from("ab"), String::new(), String::from("c"), String::from("def")];
    assert_eq!(join_parts(&parts), "abcdef");
    assert_eq!(join_parts(&Vec::new()), "");
}

#[test]
fn encode_error_names_the_fragment() {
    let e = EncodeError { fragment: 3 };
    assert_eq!(e.fragment, 3);
    assert_eq!(e, EncodeError { fragment: 3 });
    assert_ne!(e, EncodeError { fragment: 4 });
}
