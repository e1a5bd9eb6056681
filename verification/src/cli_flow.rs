//! The decisions of the command-line front end: whether `tg auth` has work
//! to do, what a finished command reports, which chat or bot the arguments
//! name, and how a bot token is registered.

use vstd::prelude::*;
use crate::bot_api::BotUser;
use crate::cli::{MarkReadArgs, MarkUnreadArgs, MessagesArgs, SendArgs};
use crate::credentials::{
    bot_named, bot_with_id, upsert_spec, ApiCredentials, BotEntry, CredentialsFile,
};
use crate::error::{ErrorValue, TgError};
use crate::messages::ChatTarget;
use crate::output::DownloadStatus;
use crate::search::first_index;
use crate::send::SendTarget;
use crate::sync::SyncResult;
use crate::text::{
    chars_of, concat3, concat5, i64_to_string, int_str, owned, parse_i64, parse_i64_spec,
    str_eq, string_from_range, strip_char_prefix, trim, trim_spec,
};

verus! {

// ---------------------------------------------------------------------------
// `tg auth`
// ---------------------------------------------------------------------------

/// What is stored for the session `tg auth` would create.
#[derive(Debug, Clone, Copy, PartialEq, Eq, Structural)]
pub struct AuthStorageStatus {
    pub api_id_stored: bool,
    pub api_hash_stored: bool,
    pub session_stored: bool,
}

impl AuthStorageStatus {
    /// The API id and hash on disk are the expected ones and a session exists.
    pub fn all_stored(self) -> (r: bool)
        ensures
            r == (self.api_id_stored && self.api_hash_stored && self.session_stored),
    {
        self.api_id_stored && self.api_hash_stored && self.session_stored
    }
}

/// The storage check from what the credentials file holds (`api_id` as an
/// integer, `api_hash` as a string, each absent when missing or of another
/// type) and whether a session directory has entries.
pub fn storage_status(
    stored_api_id: Option<i64>,
    stored_api_hash: Option<String>,
    expected: &ApiCredentials,
    session_stored: bool,
) -> (r: AuthStorageStatus)
    ensures
        r.api_id_stored == (stored_api_id == Some(expected.api_id as i64)),
        r.api_hash_stored == (stored_api_hash matches Some(h) && h@ == expected.api_hash@),
        r.session_stored == session_stored,
{
    let api_id_stored = match stored_api_id {
        Some(id) => id == expected.api_id as i64,
        None => false,
    };
    let api_hash_stored = match &stored_api_hash {
        Some(h) => str_eq(h.as_str(), expected.api_hash.as_str()),
        None => false,
    };
    AuthStorageStatus { api_id_stored, api_hash_stored, session_stored }
}

/// `tg auth` runs the login flow unless everything is already stored (and
/// always when nothing was checked).
pub fn should_run_auth_flow(pre: Option<AuthStorageStatus>) -> (r: bool)
    ensures
        r == match pre { Some(s) => !(s.api_id_stored && s.api_hash_stored && s.session_stored), None => true },
{
    match pre {
        Some(s) => !s.all_stored(),
        None => true,
    }
}

/// After a login, everything must have been persisted.
pub fn check_persisted(post: AuthStorageStatus) -> (r: Result<(), TgError>)
    ensures
        post.api_id_stored && post.api_hash_stored && post.session_stored ==> r is Ok,
        !(post.api_id_stored && post.api_hash_stored && post.session_stored) ==> (r matches Err(e) && e@
            == ErrorValue::Other("Authentication completed but failed to persist API credentials/session data"@)),
{
    if post.all_stored() {
        Ok(())
    } else {
        Err(TgError::Other(owned("Authentication completed but failed to persist API credentials/session data")))
    }
}

// ---------------------------------------------------------------------------
// Command outcomes
// ---------------------------------------------------------------------------

/// A download that saved nothing is a failure of the command.
pub fn download_outcome(status: DownloadStatus) -> (r: Result<(), TgError>)
    ensures
        status == DownloadStatus::NoDownloadableMedia ==> (r matches Err(e) && e@ == ErrorValue::Other(
            "Selected message has no downloadable media"@,
        )),
        status == DownloadStatus::Failed ==> (r matches Err(e) && e@ == ErrorValue::Other(
            "One or more downloads failed"@,
        )),
        status != DownloadStatus::NoDownloadableMedia && status != DownloadStatus::Failed ==> r is Ok,
{
    match status {
        DownloadStatus::NoDownloadableMedia => Err(TgError::Other(owned("Selected message has no downloadable media"))),
        DownloadStatus::Failed => Err(TgError::Other(owned("One or more downloads failed"))),
        _ => Ok(()),
    }
}

/// A sync fails as a command when any chat failed (its output is printed
/// either way).
pub fn sync_outcome(results: &Vec<SyncResult>) -> (r: Result<(), TgError>)
    ensures
        (exists|i: int| 0 <= i < results@.len() && #[trigger] results@[i] is Error) ==> (r matches Err(e) && e@
            == ErrorValue::Other("One or more chats failed to sync"@)),
        (forall|i: int| 0 <= i < results@.len() ==> !(#[trigger] results@[i] is Error)) ==> r is Ok,
{
    let mut i: usize = 0;
    while i < results.len()
        invariant
            0 <= i <= results@.len(),
            forall|k: int| 0 <= k < i ==> !(#[trigger] results@[k] is Error),
        decreases results@.len() - i,
    {
        if let SyncResult::Error { .. } = &results[i] {
            return Err(TgError::Other(owned("One or more chats failed to sync")));
        }
        i = i + 1;
    }
    Ok(())
}

// ---------------------------------------------------------------------------
// Targets named on the command line
// ---------------------------------------------------------------------------

/// The target of a user send from the command line: `--to` (a number is an
/// id, otherwise a name with any leading `@` dropped), then `--id`,
/// `--group`, and the contact name.
pub fn cli_send_target(args: &SendArgs) -> (r: SendTarget)
    requires
        args.to is Some || args.id is Some || args.group is Some || args.name is Some,
    ensures
        match (args.to, args.id, args.group, args.name) {
            (Some(to), _, _, _) => match parse_i64_spec(to@) {
                Some(id) => r == SendTarget::Id(id),
                None => r matches SendTarget::Name(n) && n@ == strip_char_prefix(to@, '@'),
            },
            (None, Some(id), _, _) => r == SendTarget::Id(id),
            (None, None, Some(g), _) => r matches SendTarget::Group(x) && x@ == g@,
            (None, None, None, Some(n)) => r matches SendTarget::Name(x) && x@ == n@,
            _ => false,
        },
{
    match &args.to {
        Some(to) => match parse_i64(to.as_str()) {
            Some(id) => SendTarget::Id(id),
            None => {
                let v = chars_of(to.as_str());
                if v.len() > 0 && v[0] == '@' {
                    let n = string_from_range(&v, 1, v.len());
                    assert(v@.subrange(1, v@.len() as int) == v@.drop_first());
                    SendTarget::Name(n)
                } else {
                    SendTarget::Name(to.clone())
                }
            },
        },
        None => match args.id {
            Some(id) => SendTarget::Id(id),
            None => match &args.group {
                Some(g) => SendTarget::Group(g.clone()),
                None => match &args.name {
                    Some(n) => SendTarget::Name(n.clone()),
                    None => SendTarget::Id(0),
                },
            },
        },
    }
}

/// The chat of `tg messages`: the chat id when given, else the name.
pub fn cli_messages_target(args: &MessagesArgs) -> (r: ChatTarget)
    requires
        args.chat is Some || args.name is Some,
    ensures
        match args.chat {
            Some(id) => r matches ChatTarget::Id(x) && x == id,
            None => r matches ChatTarget::Name(x) && Some(x@) == match args.name { Some(n) => Some(n@), None => None },
        },
{
    match args.chat {
        Some(id) => ChatTarget::Id(id),
        None => match &args.name {
            Some(n) => ChatTarget::Name(n.clone()),
            None => ChatTarget::Id(0),
        },
    }
}

/// The chat of `tg mark-read`: the id when given, else the name.
pub fn cli_mark_read_target(args: &MarkReadArgs) -> (r: ChatTarget)
    requires
        args.id is Some || args.name is Some,
    ensures
        match args.id {
            Some(id) => r matches ChatTarget::Id(x) && x == id,
            None => r matches ChatTarget::Name(x) && Some(x@) == match args.name { Some(n) => Some(n@), None => None },
        },
{
    match args.id {
        Some(id) => ChatTarget::Id(id),
        None => match &args.name {
            Some(n) => ChatTarget::Name(n.clone()),
            None => ChatTarget::Id(0),
        },
    }
}

/// The chat of `tg mark-unread`: the id when given, else the name.
pub fn cli_mark_unread_target(args: &MarkUnreadArgs) -> (r: ChatTarget)
    requires
        args.id is Some || args.name is Some,
    ensures
        match args.id {
            Some(id) => r matches ChatTarget::Id(x) && x == id,
            None => r matches ChatTarget::Name(x) && Some(x@) == match args.name { Some(n) => Some(n@), None => None },
        },
{
    match args.id {
        Some(id) => ChatTarget::Id(id),
        None => match &args.name {
            Some(n) => ChatTarget::Name(n.clone()),
            None => ChatTarget::Id(0),
        },
    }
}

// ---------------------------------------------------------------------------
// Bots
// ---------------------------------------------------------------------------

/// The bot `--as` names: a number is a bot id, anything else a username.
pub open spec fn sending_bot_spec(creds: CredentialsFile, send_as: Seq<char>) -> Option<BotEntry> {
    match parse_i64_spec(send_as) {
        Some(id) => match first_index(creds.bots@, bot_with_id(id)) {
            Some(i) => Some(creds.bots@[i]),
            None => None,
        },
        None => match first_index(creds.bots@, bot_named(strip_char_prefix(send_as, '@'))) {
            Some(i) => Some(creds.bots@[i]),
            None => None,
        },
    }
}

pub fn find_sending_bot<'a>(creds: &'a CredentialsFile, send_as: &str) -> (r: Result<&'a BotEntry, TgError>)
    ensures
        match sending_bot_spec(*creds, send_as@) {
            Some(b) => r == Ok::<&BotEntry, TgError>(&b),
            None => r matches Err(e) && e@ == ErrorValue::Other(
                "Bot "@ + send_as@ + " not found. Run `tg auth bot` first."@,
            ),
        },
{
    let found = match parse_i64(send_as) {
        Some(id) => creds.find_bot_by_id(id),
        None => creds.find_bot_by_username(send_as),
    };
    match found {
        Some(b) => Ok(b),
        None => Err(TgError::Other(concat3("Bot ", send_as, " not found. Run `tg auth bot` first."))),
    }
}

/// A typed-in token is trimmed; an empty one is refused.
pub fn check_bot_token(token: &str) -> (r: Result<String, TgError>)
    ensures
        trim_spec(token@).len() == 0 ==> (r matches Err(e) && e@ == ErrorValue::Other("Bot token cannot be empty"@)),
        trim_spec(token@).len() > 0 ==> (r matches Ok(t) && t@ == trim_spec(token@)),
{
    let t = trim(token);
    if t.as_str().unicode_len() == 0 {
        Err(TgError::Other(owned("Bot token cannot be empty")))
    } else {
        Ok(t)
    }
}

/// The credentials a missing or unreadable file stands for: nothing stored.
pub fn empty_credentials() -> (r: CredentialsFile)
    ensures
        r.api_id == 0,
        r.api_hash@.len() == 0,
        r.user is None,
        r.bots@.len() == 0,
        r.known_contacts@.len() == 0,
{
    CredentialsFile { api_id: 0, api_hash: String::new(), user: None, bots: Vec::new(), known_contacts: Vec::new() }
}

/// Register the bot `getMe` described under `token`: it must have a
/// username; it replaces any stored bot with its id. Answers the confirmation
/// line.
pub fn register_bot(creds: &mut CredentialsFile, token: String, bot: BotUser) -> (r: Result<String, TgError>)
    ensures
        bot.username is None ==> (r matches Err(e) && e@ == ErrorValue::Other("Bot has no username"@)
            && *final(creds) == *old(creds)),
        bot.username matches Some(u) ==> {
            &&& r matches Ok(msg) && msg@ == "Bot @"@ + u@ + " (ID: "@ + int_str(bot.id as int)
                + ") authenticated successfully!"@
            &&& exists|entry: BotEntry| entry.id == bot.id && entry.username@ == u@ && entry.token@ == token@
                && final(creds).bots@ == #[trigger] upsert_spec(old(creds).bots@, bot_with_id(bot.id), entry)
            &&& final(creds).api_id == old(creds).api_id
            &&& final(creds).api_hash == old(creds).api_hash
            &&& final(creds).user == old(creds).user
            &&& final(creds).known_contacts == old(creds).known_contacts
        },
{
    let username = match bot.username {
        Some(u) => u,
        None => return Err(TgError::Other(owned("Bot has no username"))),
    };
    let id = i64_to_string(bot.id);
    let msg = concat5("Bot @", username.as_str(), " (ID: ", id.as_str(), ") authenticated successfully!");
    let entry = BotEntry { id: bot.id, username, token };
    let ghost e = entry;
    creds.upsert_bot(entry);
    assert(final(creds).bots@ == upsert_spec(old(creds).bots@, bot_with_id(bot.id), e));
    Ok(msg)
}

} // verus!
