use tg::error::TgError;
use tg::messages::BoundaryResult;
use tg::output::MessageInfo;
use tg::sync::{
    finish_chat_sync, finish_reconcile, first_lookup_step, hwm_until, parse_hwm_input, reconcile_cutoff,
    retry_lookup_step, ReconcileStep, SyncResult, hwm_from_decoded, reconcile_timestamp,
};

fn make_message(id: i64, chat_id: i64, timestamp: i32) -> MessageInfo {
    MessageInfo {
        id,
        chat_id,
        sender_id: Some(100),
        sender: "Alice".to_string(),
        sender_is_bot: Some(false),
        text: format!("msg {id}"),
        date: "1h ago".to_string(),
        timestamp,
        is_outgoing: false,
        edit_date: None,
        content_type: Some("text".to_string()),
        is_downloadable: false,
        download_files: vec![],
        content: None,
    }
}

fn ids(r: &SyncResult) -> Vec<i64> {
    match r {
        SyncResult::Messages(v) => v.iter().map(|m| m.id).collect(),
        SyncResult::Error { error } => panic!("unexpected error: {error}"),
    }
}

#[test]
fn parse_hwm_valid() {
    let input = r#"{"123": 42, "-1001666847309": 89508544512}"#;
    let result = parse_hwm_input(input).unwrap();
    assert_eq!(result.len(), 2);
    assert_eq!(result[&123], 42);
    assert_eq!(result[&-1001666847309], 89508544512);
}

#[test]
fn parse_hwm_zero_means_no_hwm() {
    let input = r#"{"123": 0}"#;
    let result = parse_hwm_input(input).unwrap();
    assert_eq!(result[&123], 0);
}

#[test]
fn parse_hwm_empty_object() {
    let result = parse_hwm_input("{}").unwrap();
    assert!(result.is_empty());
}

#[test]
fn parse_hwm_invalid_json() {
    let err = parse_hwm_input("not json").unwrap_err();
    assert!(err.contains("Invalid JSON"), "expected 'Invalid JSON' in: {err}");
}

#[test]
fn parse_hwm_non_numeric_chat_id() {
    let input = r#"{"abc": 42}"#;
    let err = parse_hwm_input(input).unwrap_err();
    assert!(err.contains("Invalid chat ID"), "expected 'Invalid chat ID' in: {err}");
}

#[test]
fn parse_hwm_non_integer_mark_is_invalid_json() {
    assert!(parse_hwm_input(r#"{"1": "x"}"#).unwrap_err().contains("Invalid JSON"));
    assert_eq!(parse_hwm_input(r#"{"+7": 1}"#).unwrap()[&7], 1);
}

#[test]
fn a_mark_bounds_the_fetch_and_its_message_is_dropped() {
    assert_eq!(hwm_until(0), None);
    assert_eq!(hwm_until(-3), None);
    assert_eq!(hwm_until(20), Some(20));
    let fetched = vec![make_message(30, 1, 3), make_message(20, 1, 2)];
    assert_eq!(ids(&finish_chat_sync(Ok(fetched), 20)), vec![30]);
    let fetched = vec![make_message(30, 1, 3), make_message(20, 1, 2)];
    assert_eq!(ids(&finish_chat_sync(Ok(fetched), 0)), vec![30, 20]);
    match finish_chat_sync(Err(TgError::ChatInaccessible(5)), 20) {
        SyncResult::Error { error } => assert!(error.contains("Chat 5 is inaccessible")),
        _ => panic!("expected an error"),
    }
}

#[test]
fn reconcile_steps_follow_the_boundary() {
    assert!(matches!(
        first_lookup_step(Err(TgError::NotAuthenticated), Ok(BoundaryResult::Empty)),
        ReconcileStep::Finish(SyncResult::Error { .. })
    ));
    match first_lookup_step(Ok(()), Ok(BoundaryResult::Empty)) {
        ReconcileStep::Finish(SyncResult::Messages(v)) => assert!(v.is_empty()),
        other => panic!("unexpected {other:?}"),
    }
    assert!(matches!(
        first_lookup_step(Ok(()), Ok(BoundaryResult::BoundAt(9))),
        ReconcileStep::Fetch { until: Some(9), filter: false }
    ));
    assert!(matches!(first_lookup_step(Ok(()), Ok(BoundaryResult::Unbounded)), ReconcileStep::Retry));
    assert!(matches!(
        retry_lookup_step(Ok(BoundaryResult::Unbounded)),
        ReconcileStep::Fetch { until: None, filter: true }
    ));
    assert!(matches!(
        retry_lookup_step(Ok(BoundaryResult::BoundAt(4))),
        ReconcileStep::Fetch { until: Some(4), filter: false }
    ));
    let fetched = vec![make_message(3, 1, 300), make_message(2, 1, 200), make_message(1, 1, 100)];
    assert_eq!(ids(&finish_reconcile(Ok(fetched), true, 200)), vec![3, 2]);
}

#[test]
fn reconcile_cutoff_counts_whole_days() {
    assert_eq!(reconcile_cutoff(1_700_000_000, 1), 1_700_000_000 - 86_400);
    assert_eq!(reconcile_cutoff(1_700_000_000, 0), 1_700_000_000);
}

#[test]
fn reconcile_timestamp_takes_the_clock_reading() {
    assert_eq!(reconcile_timestamp(1_700_000_000, 7), Some(1_700_000_000 - 7 * 86_400));
    assert_eq!(reconcile_timestamp(0, 0), Some(0));
    assert_eq!(reconcile_timestamp(-8_334_601_315_200, 1), None);
}

#[test]
fn marks_come_from_the_decoded_entries() {
    let m = hwm_from_decoded(Ok(vec![("-100".to_string(), 5), ("7".to_string(), 0)])).unwrap();
    assert_eq!(m[&-100], 5);
    assert_eq!(m[&7], 0);
    assert_eq!(hwm_from_decoded(Ok(vec![("x".to_string(), 1)])).unwrap_err(), "Invalid chat ID: x");
    assert_eq!(hwm_from_decoded(Err("eof".to_string())).unwrap_err(), "Invalid JSON: eof");
}
