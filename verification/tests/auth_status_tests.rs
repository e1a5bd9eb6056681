use tg::auth_status::{build_auth_status, session_dir_has_entries, yes_no, AuthStatus, BotSummary};
use tg::credentials::{save_credentials, ApiCredentials, BotEntry, CredentialsFile, KnownContact, UserIdentity};
use tg::error::TgError;
use tg::output::PlainText;

fn sample_creds() -> CredentialsFile {
    CredentialsFile {
        api_id: 12345,
        api_hash: "deadbeef".to_string(),
        user: Some(UserIdentity {
            id: 9001,
            username: Some("me".to_string()),
        }),
        bots: vec![BotEntry {
            id: 100,
            username: "kiramarbot".to_string(),
            token: "100:SECRET".to_string(),
        }],
        known_contacts: vec![KnownContact {
            id: 200,
            username: "friend".to_string(),
        }],
    }
}

#[test]
fn status_reports_not_authenticated_when_no_files() {
    let status = build_auth_status("/tmp/tg".to_string(), None, session_dir_has_entries(false, false));
    assert!(!status.authenticated);
    assert!(!status.session_stored);
    assert_eq!(status.api_id, None);
    assert!(status.bots.is_empty());
}

#[test]
fn status_reports_authed_with_session_and_credentials() {
    let status = build_auth_status("/tmp/tg".to_string(), Some(sample_creds()), session_dir_has_entries(true, false));
    assert!(status.authenticated);
    assert!(status.session_stored);
    assert_eq!(status.api_id, Some(12345));
    assert_eq!(status.bots.len(), 1);
    assert_eq!(status.bots[0].username, "kiramarbot");
    assert_eq!(status.bots[0].id, 100);
    assert_eq!(status.user.as_ref().and_then(|u| u.username.clone()), Some("me".to_string()));
}

#[test]
fn status_not_authed_when_session_missing() {
    let status = build_auth_status("/tmp/tg".to_string(), Some(sample_creds()), false);
    assert!(!status.authenticated);
    assert!(!status.session_stored);
    assert_eq!(status.api_id, Some(12345));
}

#[test]
fn status_not_authed_when_api_creds_missing() {
    let creds = CredentialsFile {
        api_id: 12345,
        api_hash: String::new(),
        user: None,
        bots: Vec::new(),
        known_contacts: Vec::new(),
    };
    let status = build_auth_status("/tmp/tg".to_string(), Some(creds), true);
    assert!(!status.authenticated);
    assert!(status.session_stored);
    assert_eq!(status.api_id, None);
}

#[test]
fn status_plain_text_contains_expected_sections() {
    let status = AuthStatus {
        authenticated: true,
        data_dir: "/tmp/tg".to_string(),
        session_stored: true,
        api_id: Some(12345),
        user: Some(UserIdentity {
            id: 9001,
            username: Some("me".to_string()),
        }),
        bots: vec![BotSummary {
            id: 100,
            username: "kiramarbot".to_string(),
        }],
    };
    let text = status.to_plain_text();
    assert!(text.contains("Authenticated:"));
    assert!(text.contains("Data directory:"));
    assert!(text.contains("/tmp/tg"));
    assert!(text.contains("API ID:"));
    assert!(text.contains("12345"));
    assert!(text.contains("@me"));
    assert!(text.contains("9001"));
    assert!(text.contains("Bots (1)"));
    assert!(text.contains("@kiramarbot"));
    assert!(text.contains("100"));
    assert!(!text.contains("Known contacts"));
}

#[test]
fn status_plain_text_no_bots() {
    let status = AuthStatus {
        authenticated: false,
        data_dir: "/tmp/tg".to_string(),
        session_stored: false,
        api_id: None,
        user: None,
        bots: Vec::new(),
    };
    let text = status.to_plain_text();
    assert!(text.contains("Bots (0)"));
    assert!(text.contains("(none)"));
    assert!(text.contains("(not set)"));
}

#[test]
fn save_then_status_roundtrips_api_id() {
    let saved = save_credentials(
        &ApiCredentials {
            api_id: 42,
            api_hash: "h".to_string(),
        },
        Err(TgError::Other("missing".to_string())),
    );
    let status = build_auth_status("/tmp/tg".to_string(), Some(saved), true);
    assert_eq!(status.api_id, Some(42));
    assert!(status.authenticated);
}

#[test]
fn labels_are_padded_to_one_column() {
    let status = AuthStatus {
        authenticated: false,
        data_dir: "/d".to_string(),
        session_stored: false,
        api_id: Some(7),
        user: Some(UserIdentity { id: 5, username: None }),
        bots: Vec::new(),
    };
    let text = status.to_plain_text();
    assert!(text.contains("Data directory:  /d"));
    assert!(text.contains("API ID:          7"));
    assert!(text.contains("User:            (5)"));
}

#[test]
fn yes_no_words() {
    assert!(yes_no(true).contains("yes"));
    assert!(yes_no(false).contains("no"));
}
