use tixschema::text::string_literal;

#[test]
fn a_string_is_spelled_as_the_rust_literal_holding_it() {
    assert_eq!(string_literal("plain"), "\"plain\"");
    assert_eq!(
        string_literal("a \"quoted\"\\path\nnext\tline\r"),
        "\"a \\\"quoted\\\"\\\\path\\nnext\\tline\\r\""
    );
    assert_eq!(string_literal("\u{0}1\u{1b}\u{7f}"), "\"\\u{00}1\\u{1b}\\u{7f}\"");
    assert_eq!(string_literal("it's \u{2014} `ok`"), "\"it's \u{2014} `ok`\"");
}

#[test]
fn the_spelled_literal_reads_back_as_the_text() {
    for text in ["", "x", "a\"b\\c\nd\te\r\u{0}7\u{1f}", "\u{2014}\u{1f600}'"] {
        let parsed = syn::parse_str::<syn::LitStr>(&string_literal(text)).unwrap();
        assert_eq!(parsed.value(), text);
    }
}
