use tg::cli::SendArgs;
use tg::parse_mode::ParseMode;
use tg::resolve::Recipient;
use tg::media::{FileAccess, SendFile};
use tg::send::{check_send_request, check_send_shape, plan_bot_send, resolve_message_from, send_target, validate_reply_to, with_target, SendRequest, SendTarget};

fn bot_args(name: Option<&str>, to: Option<&str>, id: Option<i64>, group: Option<&str>, mode: Option<&str>, message: &str) -> SendArgs {
    SendArgs {
        name: name.map(str::to_string),
        message: Some(message.to_string()),
        id,
        to: to.map(str::to_string),
        group: group.map(str::to_string),
        send_as: Some("@mybot".to_string()),
        parse_mode: mode.map(str::to_string),
    }
}

#[test]
fn resolve_message_prefers_explicit_flag() {
    let got = resolve_message_from(Some("hello".to_string()), false, b"piped".as_slice())
        .expect("explicit message should resolve");
    assert_eq!(got, "hello");
}

#[test]
fn resolve_message_reads_stdin_and_strips_trailing_newline() {
    let got = resolve_message_from(None, false, b"hi\n".as_slice()).expect("piped message should resolve");
    assert_eq!(got, "hi");
}

#[test]
fn resolve_message_preserves_internal_newlines() {
    let got = resolve_message_from(None, false, b"line1\nline2\n".as_slice())
        .expect("multi-line message should resolve");
    assert_eq!(got, "line1\nline2");
}

#[test]
fn resolve_message_strips_crlf() {
    let got = resolve_message_from(None, false, b"hi\r\n".as_slice()).expect("CRLF message should resolve");
    assert_eq!(got, "hi");
}

#[test]
fn resolve_message_empty_stdin_errors() {
    let err = resolve_message_from(None, false, b"".as_slice()).unwrap_err();
    assert!(err.to_string().contains("message"));
}

#[test]
fn resolve_message_whitespace_only_stdin_errors() {
    let err = resolve_message_from(None, false, b"   \n".as_slice()).unwrap_err();
    assert!(err.to_string().contains("message"));
}

#[test]
fn resolve_message_terminal_without_flag_errors() {
    let err = resolve_message_from(None, true, b"".as_slice()).unwrap_err();
    assert!(err.to_string().contains("message"));
}

#[test]
fn plan_bot_send_validates_parse_mode_before_naming_a_recipient() {
    let err = plan_bot_send(&bot_args(None, Some("@someone"), None, None, Some("html"), "<b>x</b>"))
        .unwrap_err()
        .to_string();
    assert_eq!(err, "invalid parse_mode 'html'. Expected `HTML` or `MarkdownV2`");
}

#[test]
fn plan_bot_send_reports_the_parse_mode_before_a_missing_recipient() {
    let err = plan_bot_send(&bot_args(None, None, Some(42), None, Some("md"), "x")).unwrap_err().to_string();
    assert!(err.contains("invalid parse_mode 'md'"), "{err}");
}

#[test]
fn plan_bot_send_returns_recipient_and_mode() {
    let (recipient, mode) = plan_bot_send(&bot_args(None, Some("@someone"), None, None, Some("HTML"), "<b>x</b>"))
        .expect("a well-formed bot send must plan");
    assert_eq!(mode, Some(ParseMode::Html));
    match recipient {
        Recipient::To(to) => assert_eq!(to, "@someone"),
        _ => panic!("--to must produce Recipient::To"),
    }
}

#[test]
fn plan_bot_send_requires_a_recipient() {
    let mut args = bot_args(None, None, Some(42), None, None, "x");
    args.id = None;
    let err = plan_bot_send(&args).unwrap_err().to_string();
    assert!(err.contains("one of"), "{err}");
}

#[test]
fn plan_bot_send_recipient_ladder_matches_the_socket_path() {
    let mut args = bot_args(Some("Jane"), Some("@x"), Some(7), Some("G"), None, "m");
    assert!(matches!(plan_bot_send(&args).unwrap().0, Recipient::To(_)));
    args.to = None;
    assert!(matches!(plan_bot_send(&args).unwrap().0, Recipient::Id(7)));
    args.id = None;
    assert!(matches!(plan_bot_send(&args).unwrap().0, Recipient::Group(_)));
    args.group = None;
    assert!(matches!(plan_bot_send(&args).unwrap().0, Recipient::Name(_)));
}

#[test]
fn send_request_from_args_never_carries_files() {
    let mut args = bot_args(None, None, Some(1), None, None, "hi");
    args.send_as = None;
    let req = SendRequest::from_args(args);
    assert!(req.files.is_none());
    assert!(req.reply_to.is_none());
}

#[test]
fn send_request_from_args_carries_parse_mode() {
    let mut args = bot_args(None, Some("@johndoe"), None, None, Some("HTML"), "hi");
    args.send_as = None;
    let req = SendRequest::from_args(args);
    assert_eq!(req.parse_mode.as_deref(), Some("HTML"));
    assert_eq!(req.to.as_deref(), Some("@johndoe"));
}

#[test]
fn socket_send_target_reads_to_as_id_username_or_name() {
    let mut req = SendRequest { message: "m".to_string(), to: Some("-100".to_string()), ..Default::default() };
    assert!(matches!(send_target(&req).unwrap(), SendTarget::Id(-100)));
    req.to = Some("@alice".to_string());
    match send_target(&req).unwrap() {
        SendTarget::Username(u) => assert_eq!(u, "alice"),
        other => panic!("unexpected {other:?}"),
    }
    req.to = Some("Alice Smith".to_string());
    match send_target(&req).unwrap() {
        SendTarget::Name(n) => assert_eq!(n, "Alice Smith"),
        other => panic!("unexpected {other:?}"),
    }
    req.to = None;
    assert!(send_target(&req).unwrap_err().to_string().contains("one of"));
}

#[test]
fn reply_to_must_be_a_server_message_id() {
    assert_eq!(validate_reply_to(None).unwrap(), None);
    assert_eq!(validate_reply_to(Some(3 << 20)).unwrap(), Some(3 << 20));
    assert!(validate_reply_to(Some(5)).is_err());
    assert!(validate_reply_to(Some(0)).is_err());
}

#[test]
fn a_target_written_into_a_request_reads_back() {
    let base = || SendRequest {
        message: "hi".to_string(),
        to: Some("@someone".to_string()),
        id: Some(5),
        group: Some("g".to_string()),
        name: Some("n".to_string()),
        ..Default::default()
    };
    match send_target(&with_target(base(), SendTarget::Name("@john".to_string()))).unwrap() {
        SendTarget::Name(n) => assert_eq!(n, "@john"),
        other => panic!("unexpected {other:?}"),
    }
    match send_target(&with_target(base(), SendTarget::Username("john".to_string()))).unwrap() {
        SendTarget::Username(u) => assert_eq!(u, "john"),
        other => panic!("unexpected {other:?}"),
    }
    match send_target(&with_target(base(), SendTarget::Id(-100))).unwrap() {
        SendTarget::Id(id) => assert_eq!(id, -100),
        other => panic!("unexpected {other:?}"),
    }
    match send_target(&with_target(base(), SendTarget::Group("Family".to_string()))).unwrap() {
        SendTarget::Group(g) => assert_eq!(g, "Family"),
        other => panic!("unexpected {other:?}"),
    }
    assert_eq!(with_target(base(), SendTarget::Id(1)).message, "hi");
}

fn attachment(path: &str, kind: &str) -> SendFile {
    SendFile { path: path.to_string(), kind: Some(kind.to_string()), ..Default::default() }
}

#[test]
fn a_mixed_album_is_refused_before_any_path_is_looked_at() {
    let req = SendRequest {
        message: "m".to_string(),
        to: Some("@someone".to_string()),
        files: Some(vec![attachment("/nowhere/a.jpg", "photo"), attachment("/nowhere/b.pdf", "file")]),
        ..Default::default()
    };
    let shape = check_send_shape(&req).unwrap_err().to_string();
    assert_eq!(
        shape,
        "send: files mixes kind `photo` (files[0]) with kind `file` (files[1]); TDLib groups only same-typed contents into one message — split it into two sends"
    );
    // Whatever the filesystem answers, the full check refuses the same way.
    let unreadable = vec![FileAccess::Unreadable("gone".to_string()), FileAccess::Unreadable("gone".to_string())];
    assert_eq!(check_send_request(&req, &unreadable).unwrap_err().to_string(), shape);
}

#[test]
fn a_well_shaped_request_passes_the_shape_check_alone() {
    let mut req = SendRequest {
        message: "m".to_string(),
        to: Some("@someone".to_string()),
        files: Some(vec![attachment("/nowhere/a.pdf", "file")]),
        ..Default::default()
    };
    assert!(check_send_shape(&req).is_ok());
    // The path is only refused once the filesystem has answered for it.
    let err = check_send_request(&req, &vec![FileAccess::NotRegular]).unwrap_err().to_string();
    assert_eq!(err, "send: files[0].path '/nowhere/a.pdf' is not a regular file");
    req.parse_mode = Some("markdown".to_string());
    assert!(check_send_shape(&req).is_err());
    req.parse_mode = None;
    req.files = None;
    assert!(check_send_shape(&req).is_ok());
}
