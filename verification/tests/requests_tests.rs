use tg::cli::{ChatsArgs, DownloadArgs, MarkUnreadArgs, MessagesArgs};
use tg::messages::{MessagesRequest, DEFAULT_LIMIT};
use tg::requests::{
    ChatTarget, ChatsRequest, DownloadRequest, GroupsRequest, MarkUnreadRequest, UnreadRequest, DEFAULT_PRIORITY,
};

#[test]
fn request_default_limit_is_50() {
    assert_eq!(ChatsRequest::default().limit, 50);
}

#[test]
fn list_requests_share_the_default_limit() {
    assert_eq!(GroupsRequest::default().limit, 50);
    assert_eq!(UnreadRequest::default().limit, 50);
    assert_eq!(ChatsRequest::from(ChatsArgs { limit: 7 }).limit, 7);
}

#[test]
fn download_request_defaults() {
    let req = DownloadRequest::with_defaults(1, 2);
    assert_eq!(req.output_dir, ".");
    assert_eq!(req.priority, DEFAULT_PRIORITY);
    let req = DownloadRequest::from(DownloadArgs { chat: -5, message: 9, output_dir: "/x".to_string(), priority: 32 });
    let options = req.options();
    assert_eq!(options.output_dir, "/x");
    assert_eq!(options.priority, 32);
}

#[test]
fn mark_unread_needs_a_chat() {
    let req = MarkUnreadRequest::from(MarkUnreadArgs { name: Some("Bob".to_string()), id: Some(3) });
    assert!(matches!(req.target().unwrap(), ChatTarget::Id(3)));
    let req = MarkUnreadRequest { name: Some("Bob".to_string()), id: None };
    match req.target().unwrap() {
        ChatTarget::Name(n) => assert_eq!(n, "Bob"),
        other => panic!("unexpected {other:?}"),
    }
    let err = MarkUnreadRequest::default().target().unwrap_err().to_string();
    assert_eq!(err, "mark_unread: either `id` or `name` is required");
}

#[test]
fn messages_request_defaults_and_from_args() {
    let req = MessagesRequest::default();
    assert_eq!(req.limit, DEFAULT_LIMIT);
    assert!(!req.oldest_first);
    let req = MessagesRequest::from(MessagesArgs {
        name: None,
        chat: Some(4),
        limit: 3,
        since_utc: Some("2026-01-01".to_string()),
        oldest_first: true,
    });
    assert_eq!(req.chat, Some(4));
    assert_eq!(req.limit, 3);
    assert!(req.oldest_first);
}
