use lsp_state::encoding::Encoding;

#[test]
fn default_is_utf16() {
    assert_eq!(Encoding::default(), Encoding::UTF16);
    assert_eq!(<Encoding as Default>::default(), Encoding::UTF16);
}

#[test]
fn names_are_the_wire_names() {
    assert_eq!(Encoding::UTF8.as_str(), "utf-8");
    assert_eq!(Encoding::UTF16.as_str(), "utf-16");
    assert_eq!(Encoding::UTF32.as_str(), "utf-32");
    assert_eq!(Encoding::UTF32.into_lsp(), "utf-32");
}

#[test]
fn parse_reads_the_three_names_only() {
    assert_eq!(Encoding::parse("utf-8"), Some(Encoding::UTF8));
    assert_eq!(Encoding::parse("utf-16"), Some(Encoding::UTF16));
    assert_eq!(Encoding::parse("utf-32"), Some(Encoding::UTF32));
    assert_eq!(Encoding::parse("utf-7"), None);
    assert_eq!(Encoding::parse("UTF-8"), None);
    assert_eq!(Encoding::parse(""), None);
}

#[test]
fn from_lsp_reads_a_name() {
    assert_eq!(Encoding::from_lsp("utf-8"), Encoding::UTF8);
    assert_eq!(Encoding::from_lsp("utf-32"), Encoding::UTF32);
}

#[test]
fn negotiate_prefers_utf8_when_the_client_has_it() {
    let client = vec![Encoding::from_lsp("utf-8"), Encoding::from_lsp("utf-16")];
    assert_eq!(Encoding::negotiate(&client), Encoding::UTF8);
}

#[test]
fn negotiate_takes_utf32_before_utf16() {
    let client = vec![Encoding::UTF16, Encoding::UTF32];
    assert_eq!(Encoding::negotiate(&client), Encoding::UTF32);
}

#[test]
fn negotiate_falls_back_to_utf16() {
    assert_eq!(Encoding::negotiate(&Vec::new()), Encoding::UTF16);
    assert_eq!(Encoding::negotiate(&vec![Encoding::UTF16]), Encoding::UTF16);
}

#[test]
fn is_in_finds_an_encoding() {
    let list = vec![Encoding::UTF16, Encoding::UTF32];
    assert!(Encoding::UTF32.is_in(&list));
    assert!(!Encoding::UTF8.is_in(&list));
}
