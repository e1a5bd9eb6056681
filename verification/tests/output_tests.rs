use tg::layout::{max_visible_width, single_line, strip_ansi, truncate_measured, truncate_with_ellipsis};
use tg::output::{ChatInfo, ContactInfo, MessageInfo, OutputFormat, PlainText, SendResult};

fn message(sender_id: Option<i64>, sender: &str, text: &str, is_outgoing: bool) -> MessageInfo {
    MessageInfo {
        id: 1,
        chat_id: 123,
        sender_id,
        sender: sender.to_string(),
        sender_is_bot: None,
        text: text.to_string(),
        date: "2024-01-01 12:00".to_string(),
        timestamp: 0,
        is_outgoing,
        edit_date: None,
        content_type: None,
        is_downloadable: false,
        download_files: vec![],
        content: None,
    }
}

#[test]
fn output_format_from_json_flag() {
    assert_eq!(OutputFormat::from_json_flag(true), OutputFormat::Json);
    assert_eq!(OutputFormat::from_json_flag(false), OutputFormat::Plain);
}

#[test]
fn chat_info_plain_text() {
    let chat = ChatInfo {
        id: 123456789,
        name: "John Doe".to_string(),
        unread_count: 0,
        last_message: None,
        is_bot: None,
    };
    let text = chat.to_plain_text();
    assert!(text.contains("123456789"));
    assert!(text.contains("John Doe"));
}

#[test]
fn chat_info_plain_text_with_unread() {
    let chat = ChatInfo {
        id: 123456789,
        name: "John Doe".to_string(),
        unread_count: 5,
        last_message: None,
        is_bot: None,
    };
    let text = chat.to_plain_text();
    assert!(text.contains("123456789"));
    assert!(text.contains("John Doe"));
    assert!(text.contains("5"));
}

#[test]
fn contact_info_plain_text() {
    let contact = ContactInfo {
        id: 123456789,
        name: "John Doe".to_string(),
        username: Some("johndoe".to_string()),
        phone: Some("+1234567890".to_string()),
        is_bot: Some(false),
    };
    let text = contact.to_plain_text();
    assert!(text.contains("John Doe"));
    assert!(text.contains("@johndoe"));
    assert!(text.contains("123456789"));
    assert!(text.contains("+1234567890"));
}

#[test]
fn contact_info_plain_text_no_optional_fields() {
    let contact = ContactInfo {
        id: 123456789,
        name: "John Doe".to_string(),
        username: None,
        phone: None,
        is_bot: Some(false),
    };
    let text = contact.to_plain_text();
    assert!(text.contains("John Doe"));
    assert!(text.contains("123456789"));
    assert!(text.contains("-"));
}

#[test]
fn message_info_plain_text_incoming() {
    let msg = message(Some(400), "John", "Hello!", false);
    let text = msg.to_plain_text();
    assert!(text.contains("2024-01-01 12:00"));
    assert!(text.contains("John"));
    assert!(text.contains("(400)"));
    assert!(text.contains("Hello!"));
}

#[test]
fn message_info_plain_text_outgoing() {
    let msg = message(Some(500), "Me", "Hi there!", true);
    let text = msg.to_plain_text();
    assert!(text.contains("You"));
    assert!(text.contains("Hi there!"));
}

#[test]
fn anonymous_sender_plain_text_omits_id() {
    let mut msg = message(None, "Tech Channel", "Channel announcement", false);
    msg.chat_id = -1001234567890;
    let text = msg.to_plain_text();
    assert!(text.contains("Tech Channel"));
    assert!(!text.contains("("));
}

#[test]
fn send_result_plain_text() {
    let result = SendResult {
        message_id: 12345,
        chat_id: 67890,
    };
    assert_eq!(result.to_plain_text(), "Message sent (id: 12345)");
}

#[test]
fn single_line_replaces_controls() {
    let text = "hello\nworld\ttest\rline";
    let normalized = single_line(text);
    assert_eq!(normalized, "hello world test line");
}

#[test]
fn truncate_with_ellipsis_shortens() {
    let text = "abcdefghijklmnopqrstuvwxyz";
    assert_eq!(truncate_with_ellipsis(text, 10), "abcdefg...");
    assert_eq!(truncate_with_ellipsis(text, 3), "...");
    assert_eq!(truncate_with_ellipsis(text, 2), "..");
    assert_eq!(truncate_with_ellipsis(text, 1), ".");
}

#[test]
fn truncate_with_ellipsis_no_change_when_fits() {
    let text = "short";
    assert_eq!(truncate_with_ellipsis(text, 5), "short");
    assert_eq!(truncate_with_ellipsis(text, 10), "short");
}

#[test]
fn strip_ansi_removes_escape_sequences() {
    let text = "\u{1b}[31mred\u{1b}[0m";
    assert_eq!(strip_ansi(text), "red");
}

#[test]
fn max_visible_width_ignores_ansi_and_lines() {
    let text = "short\n\u{1b}[32mverylong\u{1b}[0m";
    assert_eq!(max_visible_width(text), 8);
}

#[test]
fn wide_characters_count_double() {
    assert_eq!(max_visible_width("日本"), 4);
    assert_eq!(max_visible_width("ab"), 2);
}

#[test]
fn truncation_never_exceeds_the_width() {
    let text = "日本語のテキストです";
    for width in 0..12 {
        let cut = truncate_with_ellipsis(text, width);
        assert!(max_visible_width(&cut) <= width, "{cut:?} at {width}");
    }
}

#[test]
fn truncation_goes_by_the_widths_given() {
    let widths = vec![Some(2), Some(2), Some(2), Some(2)];
    assert_eq!(truncate_measured("日本語の", 8, &widths, 7), "日本...");
    assert_eq!(truncate_measured("日本語の", 8, &widths, 8), "日本語の");
    assert_eq!(truncate_measured("日本語の", 8, &widths, 2), "..");
}

#[test]
fn a_zero_budget_truncates_even_zero_width_text() {
    // The budget is looked at before the text's width.
    assert_eq!(truncate_with_ellipsis("\u{200b}", 0), "");
    assert_eq!(truncate_with_ellipsis("", 0), "");
    assert_eq!(truncate_with_ellipsis("\u{200b}", 1), "\u{200b}");
}
