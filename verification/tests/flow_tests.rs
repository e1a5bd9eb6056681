use tg::bot_api::BotUser;
use tg::cli::{MessagesArgs, SendArgs};
use tg::cli_flow::{
    check_bot_token, check_persisted, cli_messages_target, cli_send_target, download_outcome, empty_credentials,
    find_sending_bot, register_bot, should_run_auth_flow, storage_status, sync_outcome, AuthStorageStatus,
};
use tg::client_flow::{
    boundary_from_message, confirm_send, contact_from_user, first_contact_id, get_user_full_name, history_error,
    chat_bot_marker, login_step, sender_bot_marker, start_step, title_matches, user_info_from, AuthAction, AuthState,
    SenderKind, SendUpdate, UserKind,
};
use tg::credentials::{ApiCredentials, BotEntry};
use tg::error::TgError;
use tg::messages::{BoundaryResult, ChatTarget};
use tg::output::DownloadStatus;
use tg::send::SendTarget;
use tg::sync::SyncResult;

#[test]
fn auth_flow_runs_unless_everything_is_stored() {
    let expected = ApiCredentials { api_id: 5, api_hash: "h".to_string() };
    let all = storage_status(Some(5), Some("h".to_string()), &expected, true);
    assert!(all.all_stored());
    assert!(!should_run_auth_flow(Some(all)));
    let wrong_hash = storage_status(Some(5), Some("x".to_string()), &expected, true);
    assert!(should_run_auth_flow(Some(wrong_hash)));
    assert!(should_run_auth_flow(None));
    assert!(check_persisted(all).is_ok());
    let missing = AuthStorageStatus { api_id_stored: true, api_hash_stored: true, session_stored: false };
    assert!(check_persisted(missing).unwrap_err().to_string().contains("failed to persist"));
}

#[test]
fn command_outcomes() {
    assert!(download_outcome(DownloadStatus::Downloaded).is_ok());
    assert!(download_outcome(DownloadStatus::SkippedSameHash).is_ok());
    assert_eq!(
        download_outcome(DownloadStatus::NoDownloadableMedia).unwrap_err().to_string(),
        "Selected message has no downloadable media"
    );
    assert_eq!(download_outcome(DownloadStatus::Failed).unwrap_err().to_string(), "One or more downloads failed");
    assert!(sync_outcome(&vec![SyncResult::Messages(vec![])]).is_ok());
    let results = vec![SyncResult::Messages(vec![]), SyncResult::Error { error: "x".to_string() }];
    assert_eq!(sync_outcome(&results).unwrap_err().to_string(), "One or more chats failed to sync");
}

#[test]
fn command_line_targets() {
    let mut args = SendArgs {
        name: Some("Jane".to_string()),
        message: Some("m".to_string()),
        id: Some(3),
        to: Some("@bob".to_string()),
        group: None,
        send_as: None,
        parse_mode: None,
    };
    match cli_send_target(&args) {
        SendTarget::Name(n) => assert_eq!(n, "bob"),
        other => panic!("unexpected {other:?}"),
    }
    args.to = Some("-42".to_string());
    assert!(matches!(cli_send_target(&args), SendTarget::Id(-42)));
    args.to = None;
    assert!(matches!(cli_send_target(&args), SendTarget::Id(3)));
    let margs = MessagesArgs { name: Some("Bob".to_string()), chat: None, limit: 20, since_utc: None, oldest_first: false };
    assert!(matches!(cli_messages_target(&margs), ChatTarget::Name(_)));
}

#[test]
fn bots_are_found_by_id_or_username_and_registered() {
    let mut creds = empty_credentials();
    assert!(find_sending_bot(&creds, "@nobot").unwrap_err().to_string().contains("Run `tg auth bot` first."));
    assert!(check_bot_token("   ").is_err());
    assert_eq!(check_bot_token(" 1:AA \n").unwrap(), "1:AA");
    let msg = register_bot(&mut creds, "1:AA".to_string(), BotUser { id: 1, username: Some("Helper".to_string()) }).unwrap();
    assert_eq!(msg, "Bot @Helper (ID: 1) authenticated successfully!");
    assert_eq!(find_sending_bot(&creds, "1").unwrap().token, "1:AA");
    assert_eq!(find_sending_bot(&creds, "@helper").unwrap().id, 1);
    let err = register_bot(&mut creds, "2:BB".to_string(), BotUser { id: 2, username: None }).unwrap_err();
    assert_eq!(err.to_string(), "Bot has no username");
    assert_eq!(creds.bots, vec![BotEntry { id: 1, username: "Helper".to_string(), token: "1:AA".to_string() }]);
}

#[test]
fn login_answers_each_state() {
    assert!(matches!(login_step(AuthState::WaitPhoneNumber), AuthAction::SubmitPhone));
    assert!(matches!(login_step(AuthState::Ready), AuthAction::Authenticated));
    match login_step(AuthState::Closed) {
        AuthAction::Fail(e) => assert_eq!(e.to_string(), "Authentication failed: Session closed"),
        other => panic!("unexpected {other:?}"),
    }
    match start_step(AuthState::WaitCode) {
        AuthAction::Fail(e) => assert!(e.to_string().contains("Run `tg auth` first.")),
        other => panic!("unexpected {other:?}"),
    }
}

#[test]
fn sends_are_confirmed_by_their_own_update() {
    let ok = confirm_send(10, SendUpdate::Succeeded { old_message_id: 10, message_id: 99, chat_id: 5 });
    let r = ok.unwrap().unwrap();
    assert_eq!((r.message_id, r.chat_id), (99, 5));
    assert!(confirm_send(10, SendUpdate::Succeeded { old_message_id: 11, message_id: 99, chat_id: 5 }).is_none());
    let failed = confirm_send(10, SendUpdate::Failed { old_message_id: 10, error: "PEER_FLOOD".to_string() });
    assert_eq!(failed.unwrap().unwrap_err().to_string(), "TDLib error: PEER_FLOOD");
    assert!(confirm_send(10, SendUpdate::Other).is_none());
}

#[test]
fn history_errors_are_classified() {
    assert_eq!(history_error(7, "Chat not found".to_string()), TgError::ChatInaccessible(7));
    assert_eq!(history_error(7, "USER_BANNED_IN_CHANNEL".to_string()), TgError::ChatInaccessible(7));
    assert_eq!(history_error(7, "Timeout".to_string()), TgError::TdLib("Timeout".to_string()));
}

#[test]
fn boundaries_from_date_lookups() {
    assert_eq!(boundary_from_message(None, 100), BoundaryResult::Unbounded);
    assert_eq!(boundary_from_message(Some((0, 500)), 100), BoundaryResult::Unbounded);
    assert_eq!(boundary_from_message(Some((8, 100)), 100), BoundaryResult::BoundAt(8));
    assert_eq!(boundary_from_message(Some((8, 99)), 100), BoundaryResult::Empty);
}

#[test]
fn names_of_users_and_groups() {
    assert_eq!(get_user_full_name("Ann", ""), "Ann");
    assert_eq!(get_user_full_name("Ann", "Lee"), "Ann Lee");
    let c = contact_from_user(4, "Ann", "Lee", Some("ann".to_string()), "", UserKind::Regular);
    assert_eq!(c.name, "Ann Lee");
    assert_eq!(c.phone, None);
    assert_eq!(c.is_bot, Some(false));
    assert_eq!(first_contact_id(&vec![c], "Ann").unwrap(), 4);
    assert_eq!(first_contact_id(&vec![], "Zed").unwrap_err(), TgError::ContactNotFound("Zed".to_string()));
    assert!(title_matches("Rust Lovers", "rust"));
    assert!(!title_matches("Go Fans", "rust"));
}

#[test]
fn bot_markers_say_what_telegram_says() {
    // A person surnamed "Talbot" is no bot; a bot is one whatever its name.
    let person = contact_from_user(1, "Ann", "Talbot", None, "+100", UserKind::Regular);
    assert_eq!(person.is_bot, Some(false));
    assert_eq!(person.phone.as_deref(), Some("+100"));
    let bot = contact_from_user(2, "Helper", "", Some("helper_bot".to_string()), "", UserKind::Bot);
    assert_eq!(bot.is_bot, Some(true));
    // Senders: unknown when the user could not be read, false for a chat.
    assert_eq!(sender_bot_marker(SenderKind::User(Some(UserKind::Bot))), Some(true));
    assert_eq!(sender_bot_marker(SenderKind::User(Some(UserKind::Regular))), Some(false));
    assert_eq!(sender_bot_marker(SenderKind::User(Some(UserKind::Deleted))), Some(false));
    assert_eq!(sender_bot_marker(SenderKind::User(Some(UserKind::Unknown))), Some(false));
    assert_eq!(sender_bot_marker(SenderKind::User(None)), None);
    assert_eq!(sender_bot_marker(SenderKind::Chat), Some(false));
    // Chats: that of the user counterpart, unknown without one.
    assert_eq!(chat_bot_marker(Some(UserKind::Bot)), Some(true));
    assert_eq!(chat_bot_marker(Some(UserKind::Regular)), Some(false));
    assert_eq!(chat_bot_marker(None), None);
    let me = user_info_from(7, "Ann".to_string(), "".to_string(), Some("ann".to_string()), "", UserKind::Regular);
    assert_eq!((me.id, me.first_name.as_str(), me.phone.clone(), me.is_bot), (7, "Ann", None, Some(false)));
}
