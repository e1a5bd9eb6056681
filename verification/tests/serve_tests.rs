use tg::error::TgError;
use tg::output::{DeliveredElement, FailedElement, MediaElements, PartialSendResult};
use tg::serve::{error_response, response_result, route_command, socket_path_from, socket_prep, ResponseEnvelope, ServeCommand, SocketPrep};

#[test]
fn an_ordinary_failure_carries_no_result() {
    let res = error_response(serde_json::Value::from("1"), TgError::Other("nope".to_string()), None);
    assert!(!res.ok);
    assert!(res.result.is_none());
    assert_eq!(res.error.unwrap(), "nope");
}

#[test]
fn socket_path_respects_env_variants() {
    assert_eq!(
        socket_path_from(Some("/tmp/tg-explicit.sock".to_string()), None, "/data").unwrap(),
        "/tmp/tg-explicit.sock"
    );
    assert!(socket_path_from(Some(String::new()), Some("/run/user/1".to_string()), "/data").is_none());
    assert_eq!(socket_path_from(None, Some("/run/user/1".to_string()), "/data").unwrap(), "/run/user/1/tg.sock");
    assert_eq!(socket_path_from(None, Some(String::new()), "/data").unwrap(), "/data/serve.sock");
    assert_eq!(socket_path_from(None, None, "/data").unwrap(), "/data/serve.sock");
}

#[test]
fn commands_route_and_auth_is_refused() {
    assert_eq!(route_command("whoami").unwrap(), ServeCommand::Whoami);
    assert_eq!(route_command("mark_unread").unwrap(), ServeCommand::MarkUnread);
    assert_eq!(route_command("sync").unwrap(), ServeCommand::Sync);
    for cmd in ["auth", "auth_bot", "auth_status"] {
        let err = route_command(cmd).unwrap_err().to_string();
        assert!(err.contains("auth is not available over `tg serve`"), "{err}");
    }
    assert_eq!(route_command("Whoami").unwrap_err().to_string(), "unknown command: Whoami");
}

#[test]
fn envelopes_echo_the_id() {
    let ok = ResponseEnvelope::ok(serde_json::Value::from(7), serde_json::Value::from(true));
    assert!(ok.ok);
    assert_eq!(ok.id, serde_json::Value::from(7));
    assert!(ok.error.is_none());
    let err = ResponseEnvelope::err_with_result(serde_json::Value::Null, "partial".to_string(), serde_json::Value::from(1));
    assert!(!err.ok);
    assert!(err.result.is_some());
    assert_eq!(err.error.as_deref(), Some("partial"));
}

#[test]
fn a_socket_path_holding_a_plain_file_is_refused() {
    let err = socket_prep("/run/tg.sock", true, false, false).unwrap_err().to_string();
    assert!(err.contains("not a socket") && err.contains("refusing to start"), "{err}");
    assert_eq!(socket_prep("/run/tg.sock", false, false, false).unwrap(), SocketPrep::Free);
    assert_eq!(socket_prep("/run/tg.sock", true, true, false).unwrap(), SocketPrep::RemoveStale);
    let err = socket_prep("/run/tg.sock", true, true, true).unwrap_err().to_string();
    assert_eq!(err, "tg serve: already running at /run/tg.sock");
}

#[test]
fn a_success_without_result_answers_none() {
    let env = ResponseEnvelope { id: serde_json::Value::Null, ok: true, result: None, error: None };
    assert_eq!(response_result(env).unwrap(), None);
    let env = ResponseEnvelope { id: serde_json::Value::Null, ok: false, result: None, error: Some("nope".to_string()) };
    assert_eq!(response_result(env).unwrap_err().to_string(), "nope");
}

fn partial_failure() -> TgError {
    TgError::PartialSend {
        message: "send: 1 of 2 file(s) were not delivered".to_string(),
        partial: Box::new(PartialSendResult {
            chat_id: 42,
            elements: MediaElements {
                delivered: vec![DeliveredElement { index: 0, message_id: 900 }],
                failed: vec![FailedElement { index: 1, error: "PHOTO_INVALID_DIMENSIONS".to_string() }],
                unconfirmed: vec![],
            },
        }),
    }
}

#[test]
fn a_partial_send_failure_answers_with_both_error_and_result() {
    // The protocol's one `ok:false` that still carries data. Without it a
    // caller has nowhere to read what arrived, reads the failure as
    // "nothing arrived", and resends files already in the recipient's chat.
    let err = partial_failure();
    let partial = err.partial_send().expect("a partial send carries its record").clone();
    assert_eq!(partial.elements.delivered[0].message_id, 900);
    // The record as the transport encodes it.
    let record: serde_json::Value = serde_json::from_str(
        r#"{"chat_id":42,"elements":{"delivered":[{"index":0,"message_id":900}],"failed":[{"index":1,"error":"PHOTO_INVALID_DIMENSIONS"}],"unconfirmed":[]}}"#,
    )
    .unwrap();
    let res = error_response(serde_json::Value::from("1"), err, Some(Ok(record)));
    assert!(!res.ok, "a partial delivery is not a success");
    assert!(res.error.unwrap().contains("1 of 2"));
    let r = res.result.expect("a partial failure must carry its record");
    let delivered: serde_json::Value = serde_json::from_str(r#"[{"index": 0, "message_id": 900}]"#).unwrap();
    assert_eq!(r["elements"]["delivered"], delivered);
    assert_eq!(r["elements"]["failed"][0]["index"], 1);
    assert_eq!(r["chat_id"], 42);
}

#[test]
fn a_partial_record_that_cannot_be_encoded_is_not_dropped_silently() {
    let res = error_response(serde_json::Value::from(7), partial_failure(), Some(Err("boom".to_string())));
    assert!(!res.ok);
    assert!(res.result.is_none());
    assert_eq!(
        res.error.unwrap(),
        "send: 1 of 2 file(s) were not delivered (and the per-element record could not be serialised: boom — do NOT resend blindly; check the chat)"
    );
    assert!(TgError::Other("x".to_string()).partial_send().is_none());
}
