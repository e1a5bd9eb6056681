//! The `tg serve` protocol: where the socket lives, which commands the
//! socket accepts, and the response envelope. One JSON request per line
//! comes in, one response per line goes out; the transport and the JSON
//! reading happen at the edge.

use vstd::prelude::*;
use crate::credentials::{join_path, join_spec};
use crate::error::{error_text, ErrorValue, TgError};
use crate::media::opt_view;
use crate::text::{concat2, concat3, owned, str_eq};

verus! {

/// A JSON value, carried through untouched (the request id, a result).
#[verifier::external_type_specification]
#[verifier::external_body]
pub struct ExJsonValue(serde_json::Value);

/// The socket path from the environment: `TG_SERVE_SOCKET` verbatim (set
/// but empty disables serving), else `$XDG_RUNTIME_DIR/tg.sock` when that
/// is set and non-empty, else `serve.sock` in the data directory.
pub open spec fn socket_path_spec(explicit: Option<Seq<char>>, runtime_dir: Option<Seq<char>>, data_dir: Seq<char>) -> Option<
    Seq<char>,
> {
    match explicit {
        Some(v) => if v.len() == 0 { None } else { Some(v) },
        None => match runtime_dir {
            Some(d) if d.len() > 0 => Some(join_spec(d, "tg.sock"@)),
            _ => Some(join_spec(data_dir, "serve.sock"@)),
        },
    }
}

pub fn socket_path_from(explicit: Option<String>, runtime_dir: Option<String>, data_dir: &str) -> (r: Option<String>)
    ensures
        opt_view(r) == socket_path_spec(opt_view(explicit), opt_view(runtime_dir), data_dir@),
{
    match explicit {
        Some(v) => if v.as_str().unicode_len() == 0 { None } else { Some(v) },
        None => match runtime_dir {
            Some(d) => {
                if d.as_str().unicode_len() > 0 {
                    Some(join_path(d.as_str(), "tg.sock"))
                } else {
                    Some(join_path(data_dir, "serve.sock"))
                }
            },
            None => Some(join_path(data_dir, "serve.sock")),
        },
    }
}

/// Serving is refused when the socket is disabled.
pub fn socket_disabled() -> (r: TgError)
    ensures
        r@ == ErrorValue::Other("TG_SERVE_SOCKET is empty; refusing to start tg serve"@),
{
    TgError::Other(owned("TG_SERVE_SOCKET is empty; refusing to start tg serve"))
}

/// A live server already answers on the socket.
pub fn already_running(path: &str) -> (r: TgError)
    ensures
        r@ == ErrorValue::Other("tg serve: already running at "@ + path@),
{
    TgError::Other(concat2("tg serve: already running at ", path))
}

/// What starting a server does about its socket path.
#[derive(Debug, Clone, Copy, PartialEq, Eq, Structural)]
pub enum SocketPrep {
    /// Nothing stands at the path.
    Free,
    /// A socket no server answers on: remove it first.
    RemoveStale,
}

pub open spec fn not_a_socket_message(path: Seq<char>) -> Seq<char> {
    "tg serve: "@ + path + " is not a socket; refusing to start"@
}

/// What to do about the socket path before binding, from what stands there:
/// nothing, a socket a live server answers on (refused), a stale socket
/// (removed), or something that is not a socket (refused, and left alone).
pub fn socket_prep(path: &str, exists: bool, is_socket: bool, answers: bool) -> (r: Result<SocketPrep, TgError>)
    ensures
        !exists ==> r == Ok::<SocketPrep, TgError>(SocketPrep::Free),
        exists && !is_socket ==> (r matches Err(e) && e@ == ErrorValue::Other(not_a_socket_message(path@))),
        exists && is_socket && answers ==> (r matches Err(e) && e@ == ErrorValue::Other(
            "tg serve: already running at "@ + path@,
        )),
        exists && is_socket && !answers ==> r == Ok::<SocketPrep, TgError>(SocketPrep::RemoveStale),
{
    if !exists {
        Ok(SocketPrep::Free)
    } else if !is_socket {
        Err(TgError::Other(concat3("tg serve: ", path, " is not a socket; refusing to start")))
    } else if answers {
        Err(already_running(path))
    } else {
        Ok(SocketPrep::RemoveStale)
    }
}

/// The commands the socket serves.
#[derive(Debug, Clone, Copy, PartialEq, Eq, Structural)]
pub enum ServeCommand {
    Whoami,
    Chats,
    Groups,
    Unread,
    Search,
    Messages,
    Send,
    Download,
    MarkRead,
    MarkUnread,
    Sync,
}

pub open spec fn auth_refusal() -> Seq<char> {
    "auth is not available over `tg serve`; stop the serve process and run `tg auth` directly"@
}

/// Which command a request's `cmd` names: one of the served commands; the
/// three auth commands are refused; anything else is unknown.
pub open spec fn route_spec(cmd: Seq<char>) -> Result<ServeCommand, ErrorValue> {
    if cmd == "whoami"@ { Ok(ServeCommand::Whoami) }
    else if cmd == "chats"@ { Ok(ServeCommand::Chats) }
    else if cmd == "groups"@ { Ok(ServeCommand::Groups) }
    else if cmd == "unread"@ { Ok(ServeCommand::Unread) }
    else if cmd == "search"@ { Ok(ServeCommand::Search) }
    else if cmd == "messages"@ { Ok(ServeCommand::Messages) }
    else if cmd == "send"@ { Ok(ServeCommand::Send) }
    else if cmd == "download"@ { Ok(ServeCommand::Download) }
    else if cmd == "mark_read"@ { Ok(ServeCommand::MarkRead) }
    else if cmd == "mark_unread"@ { Ok(ServeCommand::MarkUnread) }
    else if cmd == "sync"@ { Ok(ServeCommand::Sync) }
    else if cmd == "auth"@ || cmd == "auth_bot"@ || cmd == "auth_status"@ { Err(ErrorValue::Other(auth_refusal())) }
    else { Err(ErrorValue::Other("unknown command: "@ + cmd)) }
}

/// The name each command is served under.
pub open spec fn command_name(c: ServeCommand) -> Seq<char> {
    match c {
        ServeCommand::Whoami => "whoami"@,
        ServeCommand::Chats => "chats"@,
        ServeCommand::Groups => "groups"@,
        ServeCommand::Unread => "unread"@,
        ServeCommand::Search => "search"@,
        ServeCommand::Messages => "messages"@,
        ServeCommand::Send => "send"@,
        ServeCommand::Download => "download"@,
        ServeCommand::MarkRead => "mark_read"@,
        ServeCommand::MarkUnread => "mark_unread"@,
        ServeCommand::Sync => "sync"@,
    }
}

/// Law: every command is reached by its own name: a request naming a
/// command is routed to that command, and no other.
pub proof fn lemma_route_by_name(c: ServeCommand)
    ensures
        route_spec(command_name(c)) == Ok::<ServeCommand, ErrorValue>(c),
{
    reveal_strlit("whoami");
    reveal_strlit("chats");
    reveal_strlit("groups");
    reveal_strlit("unread");
    reveal_strlit("search");
    reveal_strlit("messages");
    reveal_strlit("send");
    reveal_strlit("download");
    reveal_strlit("mark_read");
    reveal_strlit("mark_unread");
    reveal_strlit("sync");
    assert("whoami"@.len() == 6 && "whoami"@[0] == 'w');
    assert("chats"@.len() == 5 && "chats"@[0] == 'c');
    assert("groups"@.len() == 6 && "groups"@[0] == 'g');
    assert("unread"@.len() == 6 && "unread"@[0] == 'u');
    assert("search"@.len() == 6 && "search"@[0] == 's');
    assert("messages"@.len() == 8 && "messages"@[0] == 'm');
    assert("send"@.len() == 4 && "send"@[0] == 's');
    assert("download"@.len() == 8 && "download"@[0] == 'd');
    assert("mark_read"@.len() == 9 && "mark_read"@[0] == 'm');
    assert("mark_unread"@.len() == 11 && "mark_unread"@[0] == 'm');
    assert("sync"@.len() == 4 && "sync"@[0] == 's');
    assert("send"@[1] == 'e' && "sync"@[1] == 'y');
}

/// Law: a routed request names its command: whatever routes to a command is
/// that command's name, so distinct names reach distinct commands.
pub proof fn lemma_routed_name(cmd: Seq<char>, c: ServeCommand)
    requires
        route_spec(cmd) == Ok::<ServeCommand, ErrorValue>(c),
    ensures
        cmd == command_name(c),
{
}

pub fn route_command(cmd: &str) -> (r: Result<ServeCommand, TgError>)
    ensures
        match (r, route_spec(cmd@)) {
            (Ok(a), Ok(b)) => a == b,
            (Err(e), Err(ev)) => e@ == ev,
            _ => false,
        },
{
    if str_eq(cmd, "whoami") { Ok(ServeCommand::Whoami) }
    else if str_eq(cmd, "chats") { Ok(ServeCommand::Chats) }
    else if str_eq(cmd, "groups") { Ok(ServeCommand::Groups) }
    else if str_eq(cmd, "unread") { Ok(ServeCommand::Unread) }
    else if str_eq(cmd, "search") { Ok(ServeCommand::Search) }
    else if str_eq(cmd, "messages") { Ok(ServeCommand::Messages) }
    else if str_eq(cmd, "send") { Ok(ServeCommand::Send) }
    else if str_eq(cmd, "download") { Ok(ServeCommand::Download) }
    else if str_eq(cmd, "mark_read") { Ok(ServeCommand::MarkRead) }
    else if str_eq(cmd, "mark_unread") { Ok(ServeCommand::MarkUnread) }
    else if str_eq(cmd, "sync") { Ok(ServeCommand::Sync) }
    else if str_eq(cmd, "auth") || str_eq(cmd, "auth_bot") || str_eq(cmd, "auth_status") {
        Err(TgError::Other(owned(
            "auth is not available over `tg serve`; stop the serve process and run `tg auth` directly",
        )))
    } else {
        Err(TgError::Other(concat2("unknown command: ", cmd)))
    }
}

/// A request's arguments that do not fit the command.
pub fn invalid_args(cause: &str) -> (r: TgError)
    ensures
        r@ == ErrorValue::Other("invalid args: "@ + cause@),
{
    TgError::Other(concat2("invalid args: ", cause))
}

/// A result that could not be written as JSON.
pub fn serialization_error(cause: &str) -> (r: TgError)
    ensures
        r@ == ErrorValue::Other("serialization error: "@ + cause@),
{
    TgError::Other(concat2("serialization error: ", cause))
}

/// The error text of a line that is not a request envelope.
pub fn invalid_request_text(cause: &str) -> (r: String)
    ensures
        r@ == "invalid request: "@ + cause@,
{
    concat2("invalid request: ", cause)
}

/// `{"id", "ok": true, "result"}` or `{"id", "ok": false, "error"}`, the id
/// always echoed.
#[derive(Debug)]
pub struct ResponseEnvelope {
    pub id: serde_json::Value,
    pub ok: bool,
    pub result: Option<serde_json::Value>,
    pub error: Option<String>,
}

impl ResponseEnvelope {
    pub fn ok(id: serde_json::Value, value: serde_json::Value) -> (r: ResponseEnvelope)
        ensures
            r.id == id,
            r.ok,
            r.result == Some(value),
            r.error is None,
    {
        ResponseEnvelope { id, ok: true, result: Some(value), error: None }
    }

    pub fn err(id: serde_json::Value, message: String) -> (r: ResponseEnvelope)
        ensures
            r.id == id,
            !r.ok,
            r.result is None,
            r.error == Some(message),
    {
        ResponseEnvelope { id, ok: false, result: None, error: Some(message) }
    }

    /// A failure that still reports what it did.
    pub fn err_with_result(id: serde_json::Value, message: String, value: serde_json::Value) -> (r: ResponseEnvelope)
        ensures
            r.id == id,
            !r.ok,
            r.result == Some(value),
            r.error == Some(message),
    {
        ResponseEnvelope { id, ok: false, result: Some(value), error: Some(message) }
    }
}

/// The error text when a partial send's record could not be encoded: the
/// record must not vanish silently, or the caller would resend what arrived.
pub open spec fn unencodable_record_message(message: Seq<char>, cause: Seq<char>) -> Seq<char> {
    message + " (and the per-element record could not be serialised: "@ + cause
        + " — do NOT resend blindly; check the chat)"@
}

/// The response to a request whose handler failed: not ok, with the error's
/// text. A partial send also answers its record (`record`, the record of
/// `e.partial_send()` as JSON, or why it could not be encoded); every other
/// error answers no result.
pub fn error_response(id: serde_json::Value, e: TgError, record: Option<Result<serde_json::Value, String>>) -> (r:
    ResponseEnvelope)
    requires
        e@ is PartialSend ==> record is Some,
    ensures
        r.id == id,
        !r.ok,
        match e@ {
            ErrorValue::PartialSend(m, _) => match record {
                Some(Ok(v)) => r.result == Some(v) && (r.error matches Some(t) && t@ == m),
                Some(Err(cause)) => r.result is None && (r.error matches Some(t)
                    && t@ == unencodable_record_message(m, cause@)),
                None => false,
            },
            _ => r.result is None && (r.error matches Some(t) && t@ == error_text(e@)),
        },
{
    let message = e.to_string();
    match e.partial_send() {
        None => ResponseEnvelope::err(id, message),
        Some(_) => match record {
            Some(Ok(value)) => ResponseEnvelope::err_with_result(id, message, value),
            Some(Err(cause)) => ResponseEnvelope::err(
                id,
                concat3(
                    message.as_str(),
                    " (and the per-element record could not be serialised: ",
                    concat2(cause.as_str(), " — do NOT resend blindly; check the chat)").as_str(),
                ),
            ),
            None => ResponseEnvelope::err(id, message),
        },
    }
}

/// What a client makes of the server's answer: the result a success carries
/// (absent when it carries none), else the server's error text.
pub fn response_result(resp: ResponseEnvelope) -> (r: Result<Option<serde_json::Value>, TgError>)
    ensures
        resp.ok ==> r == Ok::<Option<serde_json::Value>, TgError>(resp.result),
        !resp.ok ==> (r matches Err(e) && e@ == ErrorValue::Other(
            match resp.error { Some(m) => m@, None => "tg serve: unknown server error"@ },
        )),
{
    if resp.ok {
        Ok(resp.result)
    } else {
        match resp.error {
            Some(m) => Err(TgError::Other(m)),
            None => Err(TgError::Other(owned("tg serve: unknown server error"))),
        }
    }
}

/// The server hung up before answering.
pub fn no_response() -> (r: TgError)
    ensures
        r@ == ErrorValue::Other("tg serve: connection closed without response"@),
{
    TgError::Other(owned("tg serve: connection closed without response"))
}

/// The server's answer was not a response envelope.
pub fn invalid_response(cause: &str) -> (r: TgError)
    ensures
        r@ == ErrorValue::Other("tg serve: invalid response: "@ + cause@),
{
    TgError::Other(concat2("tg serve: invalid response: ", cause))
}

/// The server's result did not have the expected shape.
pub fn result_parse_error(cause: &str) -> (r: TgError)
    ensures
        r@ == ErrorValue::Other("tg serve: result parse error: "@ + cause@),
{
    TgError::Other(concat2("tg serve: result parse error: ", cause))
}

} // verus!
