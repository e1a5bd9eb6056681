//! The decisions the TDLib client makes between its calls: how a login
//! proceeds from each authorization state, when a sent message is
//! confirmed, how a history error is classified, which boundary a date
//! lookup gives, and how users and chats are named.

use vstd::prelude::*;
use crate::error::{ErrorValue, TgError};
use crate::media::opt_view;
use crate::messages::BoundaryResult;
use crate::output::{ContactInfo, SendResult, UserInfo};
use crate::text::{concat2, concat3, contains_spec, contains_str, owned};

verus! {

// ---------------------------------------------------------------------------
// Login
// ---------------------------------------------------------------------------

/// The authorization states TDLib reports, as far as the login cares.
#[derive(Debug, Clone, Copy, PartialEq, Eq, Structural)]
pub enum AuthState {
    WaitTdlibParameters,
    WaitPhoneNumber,
    WaitCode,
    WaitPassword,
    Ready,
    Closed,
    Other,
}

/// What the client does on an authorization state.
#[derive(Debug)]
pub enum AuthAction {
    /// Send the TDLib parameters (once).
    SendParameters,
    /// Submit the phone number (`TG_PHONE`, or asked for).
    SubmitPhone,
    /// Ask for and submit the login code.
    SubmitCode,
    /// Ask for and submit the 2FA password.
    SubmitPassword,
    /// Logged in.
    Authenticated,
    /// The login cannot go on.
    Fail(TgError),
    /// Nothing to do; wait for the next state.
    Wait,
}

pub open spec fn session_closed() -> ErrorValue {
    ErrorValue::AuthFailed("Session closed"@)
}

/// `tg auth`: every state that asks for something is answered.
pub fn login_step(state: AuthState) -> (r: AuthAction)
    ensures
        state == AuthState::WaitTdlibParameters ==> r is SendParameters,
        state == AuthState::WaitPhoneNumber ==> r is SubmitPhone,
        state == AuthState::WaitCode ==> r is SubmitCode,
        state == AuthState::WaitPassword ==> r is SubmitPassword,
        state == AuthState::Ready ==> r is Authenticated,
        state == AuthState::Closed ==> (r matches AuthAction::Fail(e) && e@ == session_closed()),
        state == AuthState::Other ==> r is Wait,
{
    match state {
        AuthState::WaitTdlibParameters => AuthAction::SendParameters,
        AuthState::WaitPhoneNumber => AuthAction::SubmitPhone,
        AuthState::WaitCode => AuthAction::SubmitCode,
        AuthState::WaitPassword => AuthAction::SubmitPassword,
        AuthState::Ready => AuthAction::Authenticated,
        AuthState::Closed => AuthAction::Fail(TgError::AuthFailed(owned("Session closed"))),
        AuthState::Other => AuthAction::Wait,
    }
}

/// Every other command: a session that still asks for credentials is not
/// logged in, and the command stops there.
pub fn start_step(state: AuthState) -> (r: AuthAction)
    ensures
        state == AuthState::WaitTdlibParameters ==> r is SendParameters,
        state == AuthState::WaitPhoneNumber || state == AuthState::WaitCode || state == AuthState::WaitPassword
            ==> (r matches AuthAction::Fail(e) && e@ == ErrorValue::AuthFailed(
            "Not authenticated. Run `tg auth` first."@,
        )),
        state == AuthState::Ready ==> r is Authenticated,
        state == AuthState::Closed ==> (r matches AuthAction::Fail(e) && e@ == session_closed()),
        state == AuthState::Other ==> r is Wait,
{
    match state {
        AuthState::WaitTdlibParameters => AuthAction::SendParameters,
        AuthState::WaitPhoneNumber | AuthState::WaitCode | AuthState::WaitPassword => AuthAction::Fail(
            TgError::AuthFailed(owned("Not authenticated. Run `tg auth` first.")),
        ),
        AuthState::Ready => AuthAction::Authenticated,
        AuthState::Closed => AuthAction::Fail(TgError::AuthFailed(owned("Session closed"))),
        AuthState::Other => AuthAction::Wait,
    }
}

/// The update channel broke while waiting.
pub fn update_channel_error(cause: &str) -> (r: TgError)
    ensures
        r@ == ErrorValue::Other("Update channel error: "@ + cause@),
{
    TgError::Other(concat2("Update channel error: ", cause))
}

/// A login request TDLib refused.
pub fn login_refused(message: String) -> (r: TgError)
    ensures
        r@ == ErrorValue::AuthFailed(message@),
{
    TgError::AuthFailed(message)
}

// ---------------------------------------------------------------------------
// Sending
// ---------------------------------------------------------------------------

/// The updates a send waits for.
#[derive(Debug)]
pub enum SendUpdate {
    /// The message with the local id `old_message_id` reached the server.
    Succeeded { old_message_id: i64, message_id: i64, chat_id: i64 },
    /// The message with the local id `old_message_id` was refused.
    Failed { old_message_id: i64, error: String },
    /// Anything else.
    Other,
}

/// Whether an update settles the send of the local message `local_id`:
/// its success gives the server's ids, its failure TDLib's error; updates
/// about other messages settle nothing.
pub fn confirm_send(local_id: i64, update: SendUpdate) -> (r: Option<Result<SendResult, TgError>>)
    ensures
        match update {
            SendUpdate::Succeeded { old_message_id, message_id, chat_id } => if old_message_id == local_id {
                r == Some(Ok::<SendResult, TgError>(SendResult { message_id, chat_id }))
            } else {
                r is None
            },
            SendUpdate::Failed { old_message_id, error } => if old_message_id == local_id {
                r matches Some(Err(e)) && e@ == ErrorValue::TdLib(error@)
            } else {
                r is None
            },
            SendUpdate::Other => r is None,
        },
{
    match update {
        SendUpdate::Succeeded { old_message_id, message_id, chat_id } => {
            if old_message_id == local_id {
                Some(Ok(SendResult { message_id, chat_id }))
            } else {
                None
            }
        },
        SendUpdate::Failed { old_message_id, error } => {
            if old_message_id == local_id {
                Some(Err(TgError::TdLib(error)))
            } else {
                None
            }
        },
        SendUpdate::Other => None,
    }
}

// ---------------------------------------------------------------------------
// History
// ---------------------------------------------------------------------------

/// Unicode lowercase mapping of a string, as `str::to_lowercase` computes it.
pub uninterp spec fn lowercase(s: Seq<char>) -> Seq<char>;

/// `str::to_lowercase`.
#[verifier::external_body]
pub(crate) fn to_lowercase(s: &str) -> (r: String)
    ensures
        r@ == lowercase(s@),
{
    s.to_lowercase()
}

/// The words that mark a history error as an inaccessible chat.
pub open spec fn inaccessible_marker(lower: Seq<char>) -> bool {
    ||| contains_spec(lower, "not found"@)
    ||| contains_spec(lower, "private"@)
    ||| contains_spec(lower, "kicked"@)
    ||| contains_spec(lower, "banned"@)
    ||| contains_spec(lower, "restricted"@)
    ||| contains_spec(lower, "deleted"@)
    ||| contains_spec(lower, "deactivated"@)
}

/// A failed history request: a chat the user cannot read (its message,
/// lowercased, speaks of it as not found, private, kicked, banned,
/// restricted, deleted or deactivated) is reported as inaccessible, anything
/// else as TDLib's own error.
pub fn history_error(chat_id: i64, message: String) -> (r: TgError)
    ensures
        inaccessible_marker(lowercase(message@)) ==> r@ == ErrorValue::ChatInaccessible(chat_id),
        !inaccessible_marker(lowercase(message@)) ==> r@ == ErrorValue::TdLib(message@),
{
    let lower = to_lowercase(message.as_str());
    let l = lower.as_str();
    if contains_str(l, "not found") || contains_str(l, "private") || contains_str(l, "kicked")
        || contains_str(l, "banned") || contains_str(l, "restricted") || contains_str(l, "deleted")
        || contains_str(l, "deactivated") {
        TgError::ChatInaccessible(chat_id)
    } else {
        TgError::TdLib(message)
    }
}

/// The boundary a date lookup gives: no message (id 0) or a failed lookup
/// bounds nothing; a message at or after the date bounds the fetch; an
/// older one means nothing is that recent.
pub fn boundary_from_message(found: Option<(i64, i32)>, timestamp: i32) -> (r: BoundaryResult)
    ensures
        r == match found {
            None => BoundaryResult::Unbounded,
            Some((id, date)) => if id == 0 {
                BoundaryResult::Unbounded
            } else if date >= timestamp {
                BoundaryResult::BoundAt(id)
            } else {
                BoundaryResult::Empty
            },
        },
{
    match found {
        None => BoundaryResult::Unbounded,
        Some((id, date)) => {
            if id == 0 {
                BoundaryResult::Unbounded
            } else if date >= timestamp {
                BoundaryResult::BoundAt(id)
            } else {
                BoundaryResult::Empty
            }
        },
    }
}

// ---------------------------------------------------------------------------
// Names
// ---------------------------------------------------------------------------

pub open spec fn full_name_spec(first: Seq<char>, last: Seq<char>) -> Seq<char> {
    if last.len() == 0 { first } else { first + " "@ + last }
}

/// `first last`, or just `first` when there is no last name.
pub fn get_user_full_name(first_name: &str, last_name: &str) -> (r: String)
    ensures
        r@ == full_name_spec(first_name@, last_name@),
{
    if last_name.unicode_len() == 0 {
        owned(first_name)
    } else {
        concat3(first_name, " ", last_name)
    }
}

/// The author shown for a message: the user's or chat's name, `Unknown`
/// when it could not be looked up.
pub fn sender_name(looked_up: Option<String>) -> (r: String)
    ensures
        r@ == match looked_up { Some(n) => n@, None => "Unknown"@ },
{
    match looked_up {
        Some(n) => n,
        None => owned("Unknown"),
    }
}

// ---------------------------------------------------------------------------
// Bot markers
// ---------------------------------------------------------------------------

/// A user's TDLib type, as far as its bot marker goes.
#[derive(Debug, Clone, Copy, PartialEq, Eq, Structural)]
pub enum UserKind {
    Regular,
    Bot,
    /// `userTypeDeleted`: Telegram no longer says whether it was a bot.
    Deleted,
    /// `userTypeUnknown`: inaccessible, and not said to be a bot.
    Unknown,
}

/// A readable user is a bot exactly when its type says so; deleted and
/// inaccessible accounts count as not a bot.
pub fn user_is_bot(kind: UserKind) -> (r: bool)
    ensures
        r == (kind == UserKind::Bot),
{
    match kind {
        UserKind::Bot => true,
        _ => false,
    }
}

/// Who sent a message, as far as its bot marker goes: a user, whose type
/// was read (`None` when the user object could not be read), or a chat
/// sending as itself.
#[derive(Debug, Clone, Copy, PartialEq, Eq, Structural)]
pub enum SenderKind {
    User(Option<UserKind>),
    Chat,
}

/// The `sender_is_bot` of a message: unknown when the sending user could not
/// be read, `false` for a chat sender.
pub open spec fn sender_marker_spec(s: SenderKind) -> Option<bool> {
    match s {
        SenderKind::User(Some(k)) => Some(k == UserKind::Bot),
        SenderKind::User(None) => None,
        SenderKind::Chat => Some(false),
    }
}

pub fn sender_bot_marker(s: SenderKind) -> (r: Option<bool>)
    ensures
        r == sender_marker_spec(s),
{
    match s {
        SenderKind::User(Some(k)) => Some(user_is_bot(k)),
        SenderKind::User(None) => None,
        SenderKind::Chat => Some(false),
    }
}

/// The `is_bot` of a chat: that of its single user counterpart, read as
/// `counterpart`; unknown when the chat has none (groups, channels) or the
/// user could not be read (`None`).
pub fn chat_bot_marker(counterpart: Option<UserKind>) -> (r: Option<bool>)
    ensures
        r == (match counterpart { Some(k) => Some(k == UserKind::Bot), None => None::<bool> }),
{
    match counterpart {
        Some(k) => Some(user_is_bot(k)),
        None => None,
    }
}

fn phone_of(phone_number: &str) -> (r: Option<String>)
    ensures
        opt_view(r) == (if phone_number@.len() == 0 { None } else { Some(phone_number@) }),
{
    if phone_number.unicode_len() == 0 { None } else { Some(owned(phone_number)) }
}

/// A search hit as a contact: the full name, the first active username,
/// the phone number when there is one, and whether it is a bot.
pub fn contact_from_user(
    user_id: i64,
    first_name: &str,
    last_name: &str,
    active_username: Option<String>,
    phone_number: &str,
    kind: UserKind,
) -> (r: ContactInfo)
    ensures
        r.id == user_id,
        r.name@ == full_name_spec(first_name@, last_name@),
        opt_view(r.username) == opt_view(active_username),
        opt_view(r.phone) == (if phone_number@.len() == 0 { None } else { Some(phone_number@) }),
        r.is_bot == Some(kind == UserKind::Bot),
{
    ContactInfo {
        id: user_id,
        name: get_user_full_name(first_name, last_name),
        username: active_username,
        phone: phone_of(phone_number),
        is_bot: Some(user_is_bot(kind)),
    }
}

/// The logged-in account as `whoami` shows it: its names, first active
/// username, phone number when there is one, and whether it is a bot.
pub fn user_info_from(
    user_id: i64,
    first_name: String,
    last_name: String,
    active_username: Option<String>,
    phone_number: &str,
    kind: UserKind,
) -> (r: UserInfo)
    ensures
        r.id == user_id,
        r.first_name@ == first_name@,
        r.last_name@ == last_name@,
        opt_view(r.username) == opt_view(active_username),
        opt_view(r.phone) == (if phone_number@.len() == 0 { None } else { Some(phone_number@) }),
        r.is_bot == Some(kind == UserKind::Bot),
{
    UserInfo {
        id: user_id,
        first_name,
        last_name,
        username: active_username,
        phone: phone_of(phone_number),
        is_bot: Some(user_is_bot(kind)),
    }
}

/// The chat a contact search names: its first hit.
pub fn first_contact_id(contacts: &Vec<ContactInfo>, name: &str) -> (r: Result<i64, TgError>)
    ensures
        contacts@.len() > 0 ==> r == Ok::<i64, TgError>(contacts@[0].id),
        contacts@.len() == 0 ==> (r matches Err(e) && e@ == ErrorValue::ContactNotFound(name@)),
{
    if contacts.len() > 0 {
        Ok(contacts[0].id)
    } else {
        Err(TgError::ContactNotFound(owned(name)))
    }
}

/// A public chat matches a group search when its title, lowercased,
/// contains the lowercased name.
pub fn title_matches(title: &str, name: &str) -> (r: bool)
    ensures
        r == contains_spec(lowercase(title@), lowercase(name@)),
{
    let t = to_lowercase(title);
    let n = to_lowercase(name);
    contains_str(t.as_str(), n.as_str())
}

/// No public chat matched the group search.
pub fn group_not_found(name: &str) -> (r: TgError)
    ensures
        r@ == ErrorValue::ChatNotFound(name@),
{
    TgError::ChatNotFound(owned(name))
}

} // verus!
