//! The Telegram Bot API as the `--as` sends use it: the method URLs, the
//! `sendMessage` body, and how a reply's envelope is read. The HTTP round
//! trip happens at the edge.

use vstd::prelude::*;
use crate::error::{ErrorValue, TgError};
use crate::parse_mode::{mode_literal, ParseMode};
use crate::text::{concat2, concat4, owned};

verus! {

/// The envelope every Bot API reply comes in.
#[derive(Debug)]
pub struct TelegramResponse<T> {
    pub ok: bool,
    pub description: Option<String>,
    pub result: Option<T>,
}

/// What `getMe` answers.
#[derive(Debug, Clone)]
pub struct BotUser {
    pub id: i64,
    pub username: Option<String>,
}

/// What `sendMessage` answers.
#[derive(Debug, Clone, Copy)]
pub struct SentMessage {
    pub message_id: i64,
}

/// `https://api.telegram.org/bot<token>/<method>`.
pub fn api_url(token: &str, method: &str) -> (r: String)
    ensures
        r@ == "https://api.telegram.org/bot"@ + token@ + "/"@ + method@,
{
    concat4("https://api.telegram.org/bot", token, "/", method)
}

/// The error a reply that carries no result stands for.
pub open spec fn reply_refusal<T>(resp: TelegramResponse<T>) -> ErrorValue {
    if resp.ok {
        ErrorValue::Other("Bot API returned ok but no result"@)
    } else {
        ErrorValue::Other("Bot API error: "@ + match resp.description { Some(d) => d@, None => "unknown"@ })
    }
}

/// What a reply means: its result when `ok` (an `ok` reply without one is an
/// error too), else the API's description of the failure.
pub fn parse_response<T>(resp: TelegramResponse<T>) -> (r: Result<T, TgError>)
    ensures
        resp.ok && resp.result is Some ==> r == Ok::<T, TgError>(resp.result->Some_0),
        resp.ok && resp.result is None ==> (r matches Err(e) && e@ == ErrorValue::Other(
            "Bot API returned ok but no result"@,
        )),
        !resp.ok ==> (r matches Err(e) && e@ == ErrorValue::Other(
            "Bot API error: "@ + match resp.description { Some(d) => d@, None => "unknown"@ },
        )),
        !(resp.ok && resp.result is Some) ==> (r matches Err(e) && e@ == reply_refusal(resp)),
{
    if resp.ok {
        match resp.result {
            Some(v) => Ok(v),
            None => Err(TgError::Other(owned("Bot API returned ok but no result"))),
        }
    } else {
        let desc = match resp.description {
            Some(d) => d,
            None => owned("unknown"),
        };
        Err(TgError::Other(concat2("Bot API error: ", desc.as_str())))
    }
}

/// The body of a `sendMessage` call. `parse_mode` is absent, not null, for
/// a plain-text send.
#[derive(Debug, Clone)]
pub struct SendMessagePayload {
    pub chat_id: i64,
    pub text: String,
    pub parse_mode: Option<&'static str>,
}

pub fn send_message_payload(chat_id: i64, text: &str, parse_mode: Option<ParseMode>) -> (r: SendMessagePayload)
    ensures
        r.chat_id == chat_id,
        r.text@ == text@,
        parse_mode is None ==> r.parse_mode is None,
        parse_mode matches Some(m) ==> (r.parse_mode matches Some(s) && s@ == mode_literal(m)),
{
    SendMessagePayload {
        chat_id,
        text: owned(text),
        parse_mode: match parse_mode {
            Some(m) => Some(m.as_str()),
            None => None,
        },
    }
}

/// The message id a `sendMessage` reply carries.
pub fn sent_message_id(resp: TelegramResponse<SentMessage>) -> (r: Result<i64, TgError>)
    ensures
        resp.ok && resp.result is Some ==> r == Ok::<i64, TgError>(resp.result->Some_0.message_id),
        !(resp.ok && resp.result is Some) ==> (r matches Err(e) && e@ == reply_refusal(resp)),
{
    match parse_response(resp) {
        Ok(m) => Ok(m.message_id),
        Err(e) => Err(e),
    }
}

/// The prefix of the error a failed HTTP round trip reports.
pub fn http_failure(cause: &str) -> (r: TgError)
    ensures
        r@ == ErrorValue::Other("HTTP request failed: "@ + cause@),
{
    TgError::Other(concat2("HTTP request failed: ", cause))
}

/// The error a reply that is not a Bot API envelope reports.
pub fn unreadable_reply(cause: &str) -> (r: TgError)
    ensures
        r@ == ErrorValue::Other("Failed to parse Bot API response: "@ + cause@),
{
    TgError::Other(concat2("Failed to parse Bot API response: ", cause))
}

} // verus!
