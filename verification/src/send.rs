//! Sending: the socket request, the bot-send plan, the message body read
//! from stdin, and the checks that run before any recipient lookup.

use vstd::prelude::*;
use crate::cli::SendArgs;
use crate::error::{ErrorValue, TgError};
use crate::media::{
    check_file_shapes, checked_refusal, shape_refusal, shapes_spec, validate_checked_files, validated_as,
    FileAccess, MediaFile, SendFile,
};
use crate::parse_mode::{ParseMode, parse_mode_spec};
use crate::resolve::Recipient;
use crate::text::{all_digits, all_ws, concat2, concat3, i64_to_string, int_str, is_blank, owned, parse_i64, parse_i64_spec, chars_of, string_from_range};

verus! {

/// Where a user send goes.
#[derive(Debug)]
pub enum SendTarget {
    Id(i64),
    Name(String),
    Username(String),
    Group(String),
}

/// Wire mirror of the `send` socket arguments (unknown keys are refused).
#[derive(Debug, Clone, Default)]
pub struct SendRequest {
    pub message: String,
    pub name: Option<String>,
    pub id: Option<i64>,
    pub to: Option<String>,
    pub group: Option<String>,
    /// `HTML` or `MarkdownV2`; absent means plain text.
    pub parse_mode: Option<String>,
    /// 1-10 local files to send as one message with `message` as the caption.
    pub files: Option<Vec<SendFile>>,
    /// TDLib id (`server_id << 20`) of the message in the destination chat to reply to.
    pub reply_to: Option<i64>,
}

impl SendRequest {
    /// The request a command-line send makes, once its message body is
    /// known: no attachments and no reply (both are socket-only).
    pub fn from_args(args: SendArgs) -> (r: SendRequest)
        requires
            args.message is Some,
        ensures
            r.message == args.message->Some_0,
            r.name == args.name,
            r.id == args.id,
            r.to == args.to,
            r.group == args.group,
            r.parse_mode == args.parse_mode,
            r.files is None,
            r.reply_to is None,
    {
        let message = match args.message {
            Some(m) => m,
            None => String::new(),
        };
        SendRequest {
            message,
            name: args.name,
            id: args.id,
            to: args.to,
            group: args.group,
            parse_mode: args.parse_mode,
            files: None,
            reply_to: None,
        }
    }
}

/// TDLib message ids of server messages are multiples of 2^20.
pub const SERVER_ID_SHIFT: i64 = 1048576;

pub open spec fn invalid_reply_message(id: i64) -> Seq<char> {
    "invalid reply_to "@ + int_str(id as int)
        + ": expected a TDLib message id (server_id << 20, as `tg messages` prints it), not a bare server id or a local message id"@
}

/// A reply target must be a positive multiple of 2^20.
pub fn validate_reply_to(reply_to: Option<i64>) -> (r: Result<Option<i64>, TgError>)
    ensures
        match reply_to {
            None => r == Ok::<Option<i64>, TgError>(None),
            Some(id) => if id > 0 && id % SERVER_ID_SHIFT == 0 {
                r == Ok::<Option<i64>, TgError>(Some(id))
            } else {
                r matches Err(e) && e@ == ErrorValue::Other(invalid_reply_message(id))
            },
        },
{
    match reply_to {
        None => Ok(None),
        Some(id) => {
            if id > 0 && id % SERVER_ID_SHIFT == 0 {
                Ok(Some(id))
            } else {
                let n = i64_to_string(id);
                Err(TgError::Other(concat3(
                    "invalid reply_to ",
                    n.as_str(),
                    ": expected a TDLib message id (server_id << 20, as `tg messages` prints it), not a bare server id or a local message id",
                )))
            }
        },
    }
}

pub open spec fn missing_recipient_message() -> Seq<char> {
    "send: one of `id`, `to`, `group`, or `name` is required"@
}

/// The parse mode a request names: absent is plain text, a present value must parse.
pub fn parse_optional_mode(value: &Option<String>) -> (r: Result<Option<ParseMode>, TgError>)
    ensures
        match value {
            None => r == Ok::<Option<ParseMode>, TgError>(None),
            Some(s) => match parse_mode_spec(s@) {
                Ok(m) => r == Ok::<Option<ParseMode>, TgError>(Some(m)),
                Err(ev) => r matches Err(e) && e@ == ev,
            },
        },
{
    match value {
        None => Ok(None),
        Some(s) => match ParseMode::parse(s.as_str()) {
            Ok(m) => Ok(Some(m)),
            Err(e) => Err(e),
        },
    }
}

/// Plan a bot (`--as`) send without any I/O: the parse mode is checked
/// first, then the recipient is chosen (`to`, then `id`, `group`, `name`).
pub fn plan_bot_send(args: &SendArgs) -> (r: Result<(Recipient, Option<ParseMode>), TgError>)
    ensures
        match args.parse_mode {
            Some(s) if parse_mode_spec(s@) is Err => r matches Err(e) && Err::<ParseMode, ErrorValue>(e@) == parse_mode_spec(s@),
            _ => {
                let mode = match args.parse_mode { Some(s) => Some(parse_mode_spec(s@)->Ok_0), None => None };
                match (args.to, args.id, args.group, args.name) {
                    (Some(to), _, _, _) => r matches Ok((Recipient::To(x), m)) && x@ == to@ && m == mode,
                    (None, Some(id), _, _) => r matches Ok((Recipient::Id(x), m)) && x == id && m == mode,
                    (None, None, Some(g), _) => r matches Ok((Recipient::Group(x), m)) && x@ == g@ && m == mode,
                    (None, None, None, Some(n)) => r matches Ok((Recipient::Name(x), m)) && x@ == n@ && m == mode,
                    (None, None, None, None) => r matches Err(e) && e@ == ErrorValue::Other(missing_recipient_message()),
                }
            },
        },
{
    let parse_mode = match parse_optional_mode(&args.parse_mode) {
        Ok(m) => m,
        Err(e) => return Err(e),
    };
    let recipient = match &args.to {
        Some(to) => Recipient::To(to.clone()),
        None => match args.id {
            Some(id) => Recipient::Id(id),
            None => match &args.group {
                Some(g) => Recipient::Group(g.clone()),
                None => match &args.name {
                    Some(n) => Recipient::Name(n.clone()),
                    None => return Err(TgError::Other(owned(
                        "send: one of `id`, `to`, `group`, or `name` is required",
                    ))),
                },
            },
        },
    };
    Ok((recipient, parse_mode))
}

/// The target a `to` value names: a number is an id, `@name` a username,
/// anything else a contact name.
pub open spec fn to_target(to: Seq<char>, t: SendTarget) -> bool {
    match parse_i64_spec(to) {
        Some(id) => t == SendTarget::Id(id),
        None => if to.len() > 0 && to[0] == '@' {
            t matches SendTarget::Username(u) && u@ == to.drop_first()
        } else {
            t matches SendTarget::Name(n) && n@ == to
        },
    }
}

/// The target of a socket send: `to` first, then `id`, `group`, `name`.
pub fn send_target(req: &SendRequest) -> (r: Result<SendTarget, TgError>)
    ensures
        match (req.to, req.id, req.group, req.name) {
            (Some(to), _, _, _) => r matches Ok(t) && to_target(to@, t),
            (None, Some(id), _, _) => r matches Ok(SendTarget::Id(x)) && x == id,
            (None, None, Some(g), _) => r matches Ok(SendTarget::Group(x)) && x@ == g@,
            (None, None, None, Some(n)) => r matches Ok(SendTarget::Name(x)) && x@ == n@,
            (None, None, None, None) => r matches Err(e) && e@ == ErrorValue::Other(missing_recipient_message()),
        },
        r matches Ok(t) ==> names_target(*req, t),
{
    match &req.to {
        Some(to) => {
            match parse_i64(to.as_str()) {
                Some(id) => Ok(SendTarget::Id(id)),
                None => {
                    let v = chars_of(to.as_str());
                    if v.len() > 0 && v[0] == '@' {
                        let u = string_from_range(&v, 1, v.len());
                        assert(v@.subrange(1, v@.len() as int) == v@.drop_first());
                        Ok(SendTarget::Username(u))
                    } else {
                        Ok(SendTarget::Name(to.clone()))
                    }
                },
            }
        },
        None => match req.id {
            Some(id) => Ok(SendTarget::Id(id)),
            None => match &req.group {
                Some(g) => Ok(SendTarget::Group(g.clone())),
                None => match &req.name {
                    Some(n) => Ok(SendTarget::Name(n.clone())),
                    None => Err(TgError::Other(owned(
                        "send: one of `id`, `to`, `group`, or `name` is required",
                    ))),
                },
            },
        },
    }
}

/// `r` names `t` the way `send_target` reads a request: `to` first, then
/// `id`, `group`, `name`.
pub open spec fn names_target(r: SendRequest, t: SendTarget) -> bool {
    match (r.to, r.id, r.group, r.name) {
        (Some(to), _, _, _) => to_target(to@, t),
        (None, Some(id), _, _) => t == SendTarget::Id(id),
        (None, None, Some(g), _) => t matches SendTarget::Group(x) && x@ == g@,
        (None, None, None, Some(n)) => t matches SendTarget::Name(x) && x@ == n@,
        (None, None, None, None) => false,
    }
}

/// The request with its recipient fields set so that it names `target`, and
/// every other field kept: how a command-line send, whose flags were already
/// read, travels over the socket.
pub fn with_target(req: SendRequest, target: SendTarget) -> (r: SendRequest)
    ensures
        names_target(r, target),
        r.message == req.message,
        r.parse_mode == req.parse_mode,
        r.files == req.files,
        r.reply_to == req.reply_to,
{
    let mut r = req;
    match target {
        SendTarget::Id(id) => {
            r.to = None;
            r.id = Some(id);
        },
        SendTarget::Group(g) => {
            r.to = None;
            r.id = None;
            r.group = Some(g);
        },
        SendTarget::Name(n) => {
            r.to = None;
            r.id = None;
            r.group = None;
            r.name = Some(n);
        },
        SendTarget::Username(u) => {
            let to = concat2("@", u.as_str());
            proof {
                reveal_strlit("@");
                assert(to@[0] == '@');
                assert(!all_digits(to@));
                assert(to@.drop_first() == u@);
            }
            r.to = Some(to);
        },
    }
    r
}

/// Two targets name the same recipient.
pub open spec fn same_target(a: SendTarget, b: SendTarget) -> bool {
    match (a, b) {
        (SendTarget::Id(x), SendTarget::Id(y)) => x == y,
        (SendTarget::Name(x), SendTarget::Name(y)) => x@ == y@,
        (SendTarget::Username(x), SendTarget::Username(y)) => x@ == y@,
        (SendTarget::Group(x), SendTarget::Group(y)) => x@ == y@,
        _ => false,
    }
}

/// Law: a request names one recipient only, so the target `with_target`
/// writes into a request is the target `send_target` reads back from it.
pub proof fn lemma_target_read_back(r: SendRequest, written: SendTarget, read: SendTarget)
    requires
        names_target(r, written),
        names_target(r, read),
    ensures
        same_target(written, read),
{
}

/// The checks of a send that touch no file: the parse mode, then the shape
/// of the attachments. What it refuses, `check_send_request` refuses with
/// the same error, before any path is looked at.
pub fn check_send_shape(req: &SendRequest) -> (r: Result<(), TgError>)
    ensures
        match req.parse_mode {
            Some(s) if parse_mode_spec(s@) is Err => r matches Err(e) && Err::<ParseMode, ErrorValue>(e@) == parse_mode_spec(s@),
            _ => match req.files {
                None => r is Ok,
                Some(files) => match shape_refusal(files@) {
                    Some(msg) => r matches Err(e) && e@ == ErrorValue::Other(msg),
                    None => r is Ok,
                },
            },
        },
{
    match parse_optional_mode(&req.parse_mode) {
        Ok(_) => {},
        Err(e) => return Err(e),
    }
    match &req.files {
        None => Ok(()),
        Some(v) => check_file_shapes(v.as_slice()),
    }
}

/// The checks a send makes before any recipient is looked up: the parse
/// mode, then the attachments (their shapes, then each path in order, with
/// `access[i]` what the filesystem answered for `files[i]`).
pub fn check_send_request(req: &SendRequest, access: &Vec<FileAccess>) -> (r: Result<
    (Option<ParseMode>, Vec<MediaFile>),
    TgError,
>)
    requires
        req.files matches Some(files) ==> access@.len() == files@.len(),
    ensures
        match req.parse_mode {
            Some(s) if parse_mode_spec(s@) is Err => r matches Err(e) && Err::<ParseMode, ErrorValue>(e@) == parse_mode_spec(s@),
            _ => match req.files {
                None => r matches Ok((m, fs)) && fs@.len() == 0,
                Some(files) => match checked_refusal(files@, access@) {
                    Some(msg) => r matches Err(e) && e@ == ErrorValue::Other(msg),
                    None => r matches Ok((m, fs)) && shapes_spec(files@, files@.len() as int) matches Ok(ks)
                        && validated_as(fs@, files@, ks),
                },
            },
        },
        r matches Ok((m, _)) ==> m == match req.parse_mode { Some(s) => Some(parse_mode_spec(s@)->Ok_0), None => None },
{
    let mode = match parse_optional_mode(&req.parse_mode) {
        Ok(m) => m,
        Err(e) => return Err(e),
    };
    let files = match &req.files {
        None => Ok(Vec::new()),
        Some(v) => validate_checked_files(v.as_slice(), access),
    };
    match files {
        Ok(fs) => Ok((mode, fs)),
        Err(e) => Err(e),
    }
}

/// The message body `send` carries: the explicit `--message` if given;
/// otherwise what was piped on stdin, its trailing newlines removed. An
/// interactive terminal, or a body that is only whitespace, is refused.
pub open spec fn body_spec(message: Option<Seq<char>>, stdin_is_terminal: bool, stdin: Option<Seq<char>>) -> Result<
    Seq<char>,
    ErrorValue,
> {
    match message {
        Some(m) => Ok(m),
        None => if stdin_is_terminal {
            Err(ErrorValue::Other("send: no message provided (pass --message/-m or pipe text via stdin)"@))
        } else {
            match stdin {
                None => Err(ErrorValue::Io("stream did not contain valid UTF-8"@)),
                Some(text) => {
                    let trimmed = trim_newlines_end(text);
                    if all_ws(trimmed) {
                        Err(ErrorValue::Other("send: empty message read from stdin"@))
                    } else {
                        Ok(trimmed)
                    }
                },
            }
        },
    }
}

/// `s.trim_end_matches(['\n', '\r'])`.
pub open spec fn trim_newlines_end(s: Seq<char>) -> Seq<char>
    decreases s.len(),
{
    if s.len() > 0 && (s.last() == '\n' || s.last() == '\r') {
        trim_newlines_end(s.drop_last())
    } else {
        s
    }
}

/// The characters that `bytes` spell as UTF-8, as `std::str::from_utf8` decodes them.
pub uninterp spec fn utf8_text(bytes: Seq<u8>) -> Option<Seq<char>>;

/// `std::str::from_utf8(bytes)`, owned.
#[verifier::external_body]
fn decode_utf8(bytes: &[u8]) -> (r: Option<String>)
    ensures
        crate::media::opt_view(r) == utf8_text(bytes@),
{
    std::str::from_utf8(bytes).ok().map(|s| s.to_owned())
}

proof fn lemma_trim_newlines_take(s: Seq<char>, k: int)
    requires
        0 <= k <= s.len(),
        forall|j: int| k <= j < s.len() ==> (#[trigger] s[j] == '\n' || s[j] == '\r'),
    ensures
        trim_newlines_end(s) == trim_newlines_end(s.take(k)),
    decreases s.len() - k,
{
    if k < s.len() {
        assert(s.drop_last() == s.take(s.len() - 1));
        lemma_trim_newlines_take(s.drop_last(), k);
        assert(s.drop_last().take(k) == s.take(k));
    } else {
        assert(s.take(k) == s);
    }
}

/// Resolve the body from the explicit flag, the terminal flag and the piped bytes.
pub fn resolve_message_from(message: Option<String>, stdin_is_terminal: bool, reader: &[u8]) -> (r: Result<
    String,
    TgError,
>)
    ensures
        match (r, body_spec(
            crate::media::opt_view(message),
            stdin_is_terminal,
            utf8_text(reader@),
        )) {
            (Ok(s), Ok(t)) => s@ == t,
            (Err(e), Err(ev)) => e@ == ev,
            _ => false,
        },
{
    match message {
        Some(m) => return Ok(m),
        None => {},
    }
    if stdin_is_terminal {
        return Err(TgError::Other(owned(
            "send: no message provided (pass --message/-m or pipe text via stdin)",
        )));
    }
    let text = match decode_utf8(reader) {
        Some(t) => t,
        None => return Err(TgError::Io(owned("stream did not contain valid UTF-8"))),
    };
    let v = chars_of(text.as_str());
    let mut k: usize = v.len();
    while k > 0 && (v[k - 1] == '\n' || v[k - 1] == '\r')
        invariant
            v@ == text@,
            0 <= k <= v@.len(),
            forall|j: int| k <= j < v@.len() ==> (#[trigger] v@[j] == '\n' || v@[j] == '\r'),
        decreases k,
    {
        k = k - 1;
    }
    proof {
        lemma_trim_newlines_take(v@, k as int);
        let t = v@.take(k as int);
        assert(!(t.len() > 0 && (t.last() == '\n' || t.last() == '\r')));
    }
    let trimmed = string_from_range(&v, 0, k);
    assert(v@.subrange(0, k as int) == v@.take(k as int));
    if is_blank(trimmed.as_str()) {
        return Err(TgError::Other(owned("send: empty message read from stdin")));
    }
    Ok(trimmed)
}

} // verus!
