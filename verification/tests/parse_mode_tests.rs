use tg::parse_mode::ParseMode;

#[test]
fn parse_html_accepts_exact() {
    assert_eq!(ParseMode::parse("HTML").unwrap(), ParseMode::Html);
}

#[test]
fn parse_markdown_v2_accepts_exact() {
    assert_eq!(ParseMode::parse("MarkdownV2").unwrap(), ParseMode::MarkdownV2);
}

#[test]
fn parse_rejects_wrong_case() {
    for value in ["html", "Html", "markdownv2", "MARKDOWNV2", "markdownV2"] {
        assert!(ParseMode::parse(value).is_err(), "{value} must not be accepted");
    }
}

#[test]
fn parse_rejects_unknown_value() {
    for value in ["Markdown", "md", "plain", "markdown-v2", "text", "None"] {
        let err = ParseMode::parse(value).unwrap_err().to_string();
        assert!(err.contains(value), "error should name the bad value: {err}");
        assert!(err.contains("HTML"), "error should name HTML: {err}");
        assert!(err.contains("MarkdownV2"), "error should name MarkdownV2: {err}");
    }
}

#[test]
fn parse_rejects_empty_and_whitespace() {
    for value in ["", " ", "  ", " HTML", "HTML ", "\tMarkdownV2"] {
        assert!(ParseMode::parse(value).is_err(), "{value:?} must not be accepted");
    }
}

#[test]
fn parse_error_text_is_exact() {
    assert_eq!(
        ParseMode::parse("xyz").unwrap_err().to_string(),
        "invalid parse_mode 'xyz'. Expected `HTML` or `MarkdownV2`"
    );
}

#[test]
fn as_str_matches_wire_literals() {
    assert_eq!(ParseMode::Html.as_str(), "HTML");
    assert_eq!(ParseMode::MarkdownV2.as_str(), "MarkdownV2");
}

#[test]
fn as_str_round_trips_through_parse() {
    for mode in [ParseMode::Html, ParseMode::MarkdownV2] {
        assert_eq!(ParseMode::parse(mode.as_str()).unwrap(), mode);
    }
}

#[test]
fn markup_refusals_name_the_mode() {
    let e = tg::parse_mode::markup_refused(ParseMode::Html, "Unsupported start tag \"h1\" at byte offset 0");
    assert_eq!(e.to_string(), "parse_mode HTML: Unsupported start tag \"h1\" at byte offset 0");
    let e = tg::parse_mode::markup_refused(ParseMode::MarkdownV2, "Character '.' is reserved and must be escaped");
    assert_eq!(e.to_string(), "parse_mode MarkdownV2: Character '.' is reserved and must be escaped");
}
