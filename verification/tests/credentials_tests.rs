use tg::credentials::{
    credentials_file_path, parse_env_credentials, ApiCredentials, BotEntry, CredentialsFile, KnownContact,
    UserIdentity,
};

fn empty_creds() -> CredentialsFile {
    CredentialsFile {
        api_id: 1,
        api_hash: "h".to_string(),
        user: None,
        bots: Vec::new(),
        known_contacts: Vec::new(),
    }
}

#[test]
fn parse_env_credentials_returns_none_when_absent() {
    let credentials = parse_env_credentials(None, None).unwrap();
    assert_eq!(credentials, None);
}

#[test]
fn parse_env_credentials_requires_both_values() {
    let err = parse_env_credentials(Some("12345".to_string()), None).unwrap_err();
    assert!(err.to_string().contains("TG_API_HASH"));
}

#[test]
fn parse_env_credentials_rejects_non_numeric_api_id() {
    let err = parse_env_credentials(Some("abc".to_string()), Some("hash".to_string())).unwrap_err();
    assert!(err.to_string().contains("TG_API_ID must be a number"));
}

#[test]
fn parse_env_credentials_parses_valid_input() {
    let credentials = parse_env_credentials(Some("12345".to_string()), Some("hash".to_string())).unwrap();
    assert_eq!(
        credentials,
        Some(ApiCredentials {
            api_id: 12345,
            api_hash: "hash".to_string()
        })
    );
}

#[test]
fn upsert_bot_adds_new() {
    let mut creds = empty_creds();
    creds.upsert_bot(BotEntry {
        id: 100,
        username: "testbot".to_string(),
        token: "100:AAA".to_string(),
    });
    assert_eq!(creds.bots.len(), 1);
    assert_eq!(creds.bots[0].username, "testbot");
}

#[test]
fn upsert_bot_updates_existing() {
    let mut creds = empty_creds();
    creds.bots.push(BotEntry {
        id: 100,
        username: "testbot".to_string(),
        token: "100:AAA".to_string(),
    });
    creds.upsert_bot(BotEntry {
        id: 100,
        username: "testbot".to_string(),
        token: "100:BBB".to_string(),
    });
    assert_eq!(creds.bots.len(), 1);
    assert_eq!(creds.bots[0].token, "100:BBB");
}

#[test]
fn resolve_username_checks_user_bots_contacts() {
    let creds = CredentialsFile {
        api_id: 1,
        api_hash: "h".to_string(),
        user: Some(UserIdentity {
            id: 1,
            username: Some("myuser".to_string()),
        }),
        bots: vec![BotEntry {
            id: 2,
            username: "mybot".to_string(),
            token: "2:AAA".to_string(),
        }],
        known_contacts: vec![KnownContact {
            id: 3,
            username: "friend".to_string(),
        }],
    };

    assert_eq!(creds.resolve_username("@myuser"), Some(1));
    assert_eq!(creds.resolve_username("mybot"), Some(2));
    assert_eq!(creds.resolve_username("@friend"), Some(3));
    assert_eq!(creds.resolve_username("@unknown"), None);
}

#[test]
fn find_bot_by_username_case_insensitive() {
    let mut creds = empty_creds();
    creds.bots.push(BotEntry {
        id: 100,
        username: "MyBot".to_string(),
        token: "100:AAA".to_string(),
    });
    assert!(creds.find_bot_by_username("mybot").is_some());
    assert!(creds.find_bot_by_username("@MyBot").is_some());
}

#[test]
fn upserted_contact_is_found_again() {
    let mut creds = empty_creds();
    creds.upsert_known_contact(KnownContact { id: 7, username: "Pal".to_string() });
    creds.upsert_known_contact(KnownContact { id: 7, username: "pal2".to_string() });
    assert_eq!(creds.known_contacts.len(), 1);
    assert_eq!(creds.resolve_username("@PAL2"), Some(7));
}

#[test]
fn find_bot_by_id_picks_the_first_match() {
    let mut creds = empty_creds();
    creds.bots.push(BotEntry { id: 5, username: "a".to_string(), token: "t1".to_string() });
    creds.bots.push(BotEntry { id: 5, username: "b".to_string(), token: "t2".to_string() });
    assert_eq!(creds.find_bot_by_id(5).unwrap().token, "t1");
    assert!(creds.find_bot_by_id(6).is_none());
}

#[test]
fn credentials_path_joins_the_data_dir() {
    assert_eq!(credentials_file_path("/home/u/.tg"), "/home/u/.tg/credentials.json");
    assert_eq!(credentials_file_path("/home/u/.tg/"), "/home/u/.tg/credentials.json");
}

#[test]
fn env_credentials_missing_id_names_the_variable() {
    let err = parse_env_credentials(None, Some("hash".to_string())).unwrap_err();
    assert!(err.to_string().contains("TG_API_ID"));
}

#[test]
fn a_doubled_at_still_finds_the_bot() {
    let mut creds = empty_creds();
    creds.bots.push(BotEntry { id: 200, username: "mybot".to_string(), token: "t".to_string() });
    assert_eq!(creds.resolve_username("@@mybot"), Some(200));
    assert_eq!(creds.resolve_username("@mybot"), Some(200));
    assert_eq!(creds.resolve_username("@@@mybot"), None);
}
