//! The crate's error type. Each variant renders to a fixed message; the text
//! is part of the contract because callers (and the socket protocol) match on it.

use vstd::prelude::*;
use crate::output::PartialSendResult;
use crate::text::{concat2, concat3, i64_to_string, int_str, owned};

verus! {

/// Everything that can go wrong in the library.
#[derive(Debug, Clone, PartialEq, Eq)]
pub enum TgError {
    NotAuthenticated,
    AuthFailed(String),
    ChatNotFound(String),
    ChatInaccessible(i64),
    ContactNotFound(String),
    InvalidPhoneNumber,
    CodeRequired,
    PasswordRequired,
    TdLib(String),
    /// An I/O failure, carried as the rendered message of the underlying error.
    Io(String),
    /// A JSON failure, carried as the rendered message of the underlying error.
    Json(String),
    EnvVarMissing(String),
    Other(String),
    /// A send that delivered part of an album: the message, and the record
    /// of what arrived, which a transport reports alongside the error.
    PartialSend { message: String, partial: Box<PartialSendResult> },
}

/// The abstract value of a [`TgError`]: the same variants over character sequences.
pub enum ErrorValue {
    NotAuthenticated,
    AuthFailed(Seq<char>),
    ChatNotFound(Seq<char>),
    ChatInaccessible(i64),
    ContactNotFound(Seq<char>),
    InvalidPhoneNumber,
    CodeRequired,
    PasswordRequired,
    TdLib(Seq<char>),
    Io(Seq<char>),
    Json(Seq<char>),
    EnvVarMissing(Seq<char>),
    Other(Seq<char>),
    PartialSend(Seq<char>, PartialSendResult),
}

impl View for TgError {
    type V = ErrorValue;

    open spec fn view(&self) -> ErrorValue {
        match self {
            TgError::NotAuthenticated => ErrorValue::NotAuthenticated,
            TgError::AuthFailed(s) => ErrorValue::AuthFailed(s@),
            TgError::ChatNotFound(s) => ErrorValue::ChatNotFound(s@),
            TgError::ChatInaccessible(id) => ErrorValue::ChatInaccessible(*id),
            TgError::ContactNotFound(s) => ErrorValue::ContactNotFound(s@),
            TgError::InvalidPhoneNumber => ErrorValue::InvalidPhoneNumber,
            TgError::CodeRequired => ErrorValue::CodeRequired,
            TgError::PasswordRequired => ErrorValue::PasswordRequired,
            TgError::TdLib(s) => ErrorValue::TdLib(s@),
            TgError::Io(s) => ErrorValue::Io(s@),
            TgError::Json(s) => ErrorValue::Json(s@),
            TgError::EnvVarMissing(s) => ErrorValue::EnvVarMissing(s@),
            TgError::Other(s) => ErrorValue::Other(s@),
            TgError::PartialSend { message, partial } => ErrorValue::PartialSend(message@, **partial),
        }
    }
}

/// The message each error renders to.
pub open spec fn error_text(e: ErrorValue) -> Seq<char> {
    match e {
        ErrorValue::NotAuthenticated => "Authentication required. Run 'tg auth' first."@,
        ErrorValue::AuthFailed(s) => "Authentication failed: "@ + s,
        ErrorValue::ChatNotFound(s) => "Chat not found: "@ + s,
        ErrorValue::ChatInaccessible(id) => "Chat "@ + int_str(id as int)
            + " is inaccessible (group may be deleted or restricted)"@,
        ErrorValue::ContactNotFound(s) => "Contact not found: "@ + s,
        ErrorValue::InvalidPhoneNumber => "Invalid phone number format"@,
        ErrorValue::CodeRequired => "Verification code required"@,
        ErrorValue::PasswordRequired => "2FA password required"@,
        ErrorValue::TdLib(s) => "TDLib error: "@ + s,
        ErrorValue::Io(s) => "IO error: "@ + s,
        ErrorValue::Json(s) => "JSON error: "@ + s,
        ErrorValue::EnvVarMissing(s) => "Environment variable "@ + s + " not set"@,
        ErrorValue::Other(s) => s,
        ErrorValue::PartialSend(m, _) => m,
    }
}

impl TgError {
    /// The human-readable message for this error.
    pub fn to_string(&self) -> (r: String)
        ensures
            r@ == error_text(self@),
    {
        match self {
            TgError::NotAuthenticated => owned("Authentication required. Run 'tg auth' first."),
            TgError::AuthFailed(s) => concat2("Authentication failed: ", s.as_str()),
            TgError::ChatNotFound(s) => concat2("Chat not found: ", s.as_str()),
            TgError::ChatInaccessible(id) => {
                let n = i64_to_string(*id);
                concat3(
                    "Chat ",
                    n.as_str(),
                    " is inaccessible (group may be deleted or restricted)",
                )
            },
            TgError::ContactNotFound(s) => concat2("Contact not found: ", s.as_str()),
            TgError::InvalidPhoneNumber => owned("Invalid phone number format"),
            TgError::CodeRequired => owned("Verification code required"),
            TgError::PasswordRequired => owned("2FA password required"),
            TgError::TdLib(s) => concat2("TDLib error: ", s.as_str()),
            TgError::Io(s) => concat2("IO error: ", s.as_str()),
            TgError::Json(s) => concat2("JSON error: ", s.as_str()),
            TgError::EnvVarMissing(s) => concat3("Environment variable ", s.as_str(), " not set"),
            TgError::Other(s) => s.clone(),
            TgError::PartialSend { message, .. } => message.clone(),
        }
    }

    /// The record a transport reports alongside this error, if it carries
    /// one: only a partial send does.
    pub fn partial_send(&self) -> (r: Option<&PartialSendResult>)
        ensures
            match self@ {
                ErrorValue::PartialSend(_, p) => r == Some(&p),
                _ => r is None,
            },
    {
        match self {
            TgError::PartialSend { partial, .. } => Some(&**partial),
            _ => None,
        }
    }
}

} // verus!
