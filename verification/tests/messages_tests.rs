use tg::messages::{finalize_messages, messages_result, parse_since_date};
use tg::output::MessageInfo;

fn make_message(id: i64, timestamp: i32) -> MessageInfo {
    MessageInfo {
        id,
        chat_id: 1,
        sender_id: Some(100),
        sender: "Alice".to_string(),
        sender_is_bot: Some(false),
        text: format!("msg {id}"),
        date: "1h ago".to_string(),
        timestamp,
        is_outgoing: false,
        edit_date: None,
        content_type: None,
        is_downloadable: false,
        download_files: vec![],
        content: None,
    }
}

#[test]
fn parse_since_date_valid() {
    let ts = parse_since_date("2026-03-01").unwrap();
    assert_eq!(ts, 1772323200);
}

#[test]
fn parse_since_date_epoch() {
    let ts = parse_since_date("1970-01-01").unwrap();
    assert_eq!(ts, 0);
}

#[test]
fn parse_since_date_iso8601() {
    let ts = parse_since_date("2026-03-18T09:34:05Z").unwrap();
    assert_eq!(ts, 1773826445);
}

#[test]
fn parse_since_date_iso8601_with_offset() {
    let ts = parse_since_date("2026-03-18T09:34:05+00:00").unwrap();
    assert_eq!(ts, 1773826445);
}

#[test]
fn parse_since_date_invalid_format() {
    assert!(parse_since_date("03-01-2026").is_err());
    assert!(parse_since_date("not-a-date").is_err());
    assert!(parse_since_date("2026/03/01").is_err());
}

#[test]
fn parse_since_date_invalid_error_message() {
    let err = parse_since_date("bad-input").unwrap_err();
    let msg = err.to_string();
    assert!(msg.contains("bad-input"));
    assert!(msg.contains("ISO 8601"));
}

#[test]
fn dates_beyond_the_tdlib_range_are_refused() {
    let err = parse_since_date("3000-01-01").unwrap_err().to_string();
    assert!(err.contains("out of range for TDLib timestamp"), "{err}");
}

#[test]
fn a_cutoff_drops_older_messages_and_oldest_first_reverses() {
    let fetched = vec![make_message(3, 300), make_message(2, 200), make_message(1, 100)];
    let kept: Vec<i64> = finalize_messages(fetched, Some(150), false, 10).iter().map(|m| m.id).collect();
    assert_eq!(kept, vec![3, 2]);
    let fetched = vec![make_message(3, 300), make_message(2, 200), make_message(1, 100)];
    let kept: Vec<i64> = finalize_messages(fetched, None, true, 2).iter().map(|m| m.id).collect();
    assert_eq!(kept, vec![1, 2]);
}

#[test]
fn messages_result_keeps_the_oldest_after_the_cutoff() {
    // Newest first, as the history walk hands them over.
    let fetched = vec![make_message(5, 500), make_message(4, 400), make_message(3, 300), make_message(2, 200)];
    let result = messages_result(77, fetched, Some(300), true, 2);
    assert_eq!(result.chat_id, 77);
    let ids: Vec<i64> = result.messages.iter().map(|m| m.id).collect();
    assert_eq!(ids, vec![3, 4]);
}
