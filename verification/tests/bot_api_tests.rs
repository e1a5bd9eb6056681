use tg::bot_api::{api_url, parse_response, send_message_payload, sent_message_id, SentMessage, TelegramResponse};
use tg::parse_mode::ParseMode;

#[test]
fn api_url_format() {
    assert_eq!(api_url("123:ABC", "getMe"), "https://api.telegram.org/bot123:ABC/getMe");
}

#[test]
fn parse_response_ok() {
    let resp = TelegramResponse {
        ok: true,
        description: None,
        result: Some(42),
    };
    assert_eq!(parse_response(resp).unwrap(), 42);
}

#[test]
fn parse_response_error() {
    let resp: TelegramResponse<i32> = TelegramResponse {
        ok: false,
        description: Some("Unauthorized".to_string()),
        result: None,
    };
    let err = parse_response(resp).unwrap_err();
    assert!(err.to_string().contains("Unauthorized"));
}

#[test]
fn parse_response_ok_without_result_is_an_error() {
    let resp: TelegramResponse<i32> = TelegramResponse { ok: true, description: None, result: None };
    assert_eq!(parse_response(resp).unwrap_err().to_string(), "Bot API returned ok but no result");
    let resp: TelegramResponse<i32> = TelegramResponse { ok: false, description: None, result: None };
    assert_eq!(parse_response(resp).unwrap_err().to_string(), "Bot API error: unknown");
}

#[test]
fn send_message_payload_omits_parse_mode_when_none() {
    let payload = send_message_payload(42, "x", None);
    assert_eq!(payload.chat_id, 42);
    assert_eq!(payload.text, "x");
    assert!(payload.parse_mode.is_none());
}

#[test]
fn send_message_payload_includes_html() {
    let payload = send_message_payload(42, "<b>x</b>", Some(ParseMode::Html));
    assert_eq!(payload.parse_mode, Some("HTML"));
    assert_eq!(payload.text, "<b>x</b>");
}

#[test]
fn send_message_payload_includes_markdown_v2() {
    let payload = send_message_payload(42, "*x*", Some(ParseMode::MarkdownV2));
    assert_eq!(payload.parse_mode, Some("MarkdownV2"));
}

#[test]
fn sent_message_reply_gives_its_id() {
    let resp = TelegramResponse { ok: true, description: None, result: Some(SentMessage { message_id: 77 }) };
    assert_eq!(sent_message_id(resp).unwrap(), 77);
}

#[test]
fn a_failed_send_reports_the_api_error() {
    let resp = TelegramResponse::<SentMessage> { ok: false, description: Some("Forbidden".to_string()), result: None };
    assert_eq!(sent_message_id(resp).unwrap_err().to_string(), "Bot API error: Forbidden");
}
