//! Reading a chat's history: the request, the `--since-utc` cutoff, and what
//! is kept of the fetched messages.

use vstd::prelude::*;
use crate::cli::MessagesArgs;
use crate::error::{ErrorValue, TgError};
use crate::output::MessageInfo;
use crate::text::{concat3, owned};

verus! {

/// Default number of messages returned.
pub const DEFAULT_LIMIT: i32 = 20;

#[derive(Debug, Clone, PartialEq)]
pub struct MessagesRequest {
    pub name: Option<String>,
    pub chat: Option<i64>,
    pub limit: i32,
    pub since_utc: Option<String>,
    pub oldest_first: bool,
}

impl MessagesRequest {
    /// The request with every field at its default.
    pub fn default_request() -> (r: MessagesRequest)
        ensures
            r.name is None,
            r.chat is None,
            r.limit == DEFAULT_LIMIT,
            r.since_utc is None,
            !r.oldest_first,
    {
        MessagesRequest { name: None, chat: None, limit: DEFAULT_LIMIT, since_utc: None, oldest_first: false }
    }
}

impl Default for MessagesRequest {
    fn default() -> (r: Self)
        ensures
            r.name is None,
            r.chat is None,
            r.limit == DEFAULT_LIMIT,
            r.since_utc is None,
            !r.oldest_first,
    {
        MessagesRequest::default_request()
    }
}

impl From<MessagesArgs> for MessagesRequest {
    fn from(args: MessagesArgs) -> (r: Self) {
        MessagesRequest {
            name: args.name,
            chat: args.chat,
            limit: args.limit,
            since_utc: args.since_utc,
            oldest_first: args.oldest_first,
        }
    }
}

impl vstd::std_specs::convert::FromSpecImpl<MessagesArgs> for MessagesRequest {
    open spec fn obeys_from_spec() -> bool {
        true
    }

    open spec fn from_spec(args: MessagesArgs) -> Self {
        MessagesRequest {
            name: args.name,
            chat: args.chat,
            limit: args.limit,
            since_utc: args.since_utc,
            oldest_first: args.oldest_first,
        }
    }
}

#[derive(Debug)]
pub enum ChatTarget {
    Id(i64),
    Name(String),
}

/// Result of looking up the boundary message for a cutoff.
#[derive(Debug, Clone, Copy, PartialEq, Eq, Structural)]
pub enum BoundaryResult {
    /// No boundary: fetch the most recent messages.
    Unbounded,
    /// Stop at this message id (inclusive).
    BoundAt(i64),
    /// No message exists at or after the cutoff.
    Empty,
}

/// The Unix time an RFC 3339 timestamp names, as
/// `chrono::DateTime::parse_from_rfc3339(s).timestamp()` computes it.
pub uninterp spec fn rfc3339_seconds(s: Seq<char>) -> Option<i64>;

/// Midnight UTC of the `%Y-%m-%d` date `s` names, as chrono computes it:
/// `None` when `s` is not such a date, `Some(None)` when midnight cannot be
/// formed.
pub uninterp spec fn ymd_midnight_seconds(s: Seq<char>) -> Option<Option<i64>>;

/// `DateTime::parse_from_rfc3339(s)` and its `timestamp()`.
#[verifier::external_body]
fn parse_rfc3339(s: &str) -> (r: Option<i64>)
    ensures
        r == rfc3339_seconds(s@),
{
    chrono::DateTime::parse_from_rfc3339(s).ok().map(|dt| dt.timestamp())
}

/// `NaiveDate::parse_from_str(s, "%Y-%m-%d")` and the timestamp of its midnight.
#[verifier::external_body]
fn parse_ymd_midnight(s: &str) -> (r: Option<Option<i64>>)
    ensures
        r == ymd_midnight_seconds(s@),
{
    chrono::NaiveDate::parse_from_str(s, "%Y-%m-%d")
        .ok()
        .map(|d| d.and_hms_opt(0, 0, 0).map(|dt| dt.and_utc().timestamp()))
}

pub open spec fn invalid_date_message(s: Seq<char>) -> Seq<char> {
    "Invalid date format '"@ + s
        + "'. Expected YYYY-MM-DD or ISO 8601 (e.g. 2026-03-18T09:34:05Z)"@
}

pub open spec fn out_of_range_message(s: Seq<char>) -> Seq<char> {
    "Date '"@ + s + "' out of range for TDLib timestamp"@
}

/// The cutoff `s` names, from what the two parsers made of it: the RFC 3339
/// reading wins, then the date reading; the value must fit an `i32`.
pub open spec fn since_spec(s: Seq<char>, rfc: Option<i64>, ymd: Option<Option<i64>>) -> Result<i32, ErrorValue> {
    let ts: Result<i64, ErrorValue> = match rfc {
        Some(t) => Ok(t),
        None => match ymd {
            Some(Some(t)) => Ok(t),
            Some(None) => Err(ErrorValue::Other("Failed to construct datetime"@)),
            None => Err(ErrorValue::Other(invalid_date_message(s))),
        },
    };
    match ts {
        Err(e) => Err(e),
        Ok(t) => if i32::MIN <= t <= i32::MAX {
            Ok(t as i32)
        } else {
            Err(ErrorValue::Other(out_of_range_message(s)))
        },
    }
}

/// The cutoff for `s` given the parsers' results.
pub fn since_timestamp(s: &str, rfc: Option<i64>, ymd: Option<Option<i64>>) -> (r: Result<i32, TgError>)
    ensures
        match (r, since_spec(s@, rfc, ymd)) {
            (Ok(a), Ok(b)) => a == b,
            (Err(e), Err(ev)) => e@ == ev,
            _ => false,
        },
{
    let ts: i64 = match rfc {
        Some(t) => t,
        None => match ymd {
            Some(Some(t)) => t,
            Some(None) => return Err(TgError::Other(owned("Failed to construct datetime"))),
            None => {
                return Err(TgError::Other(concat3(
                    "Invalid date format '",
                    s,
                    "'. Expected YYYY-MM-DD or ISO 8601 (e.g. 2026-03-18T09:34:05Z)",
                )))
            },
        },
    };
    if -2147483648 <= ts && ts <= 2147483647 {
        Ok(ts as i32)
    } else {
        Err(TgError::Other(concat3("Date '", s, "' out of range for TDLib timestamp")))
    }
}

/// Parse `YYYY-MM-DD` (midnight UTC) or RFC 3339 into a Unix timestamp.
pub fn parse_since_date(s: &str) -> (r: Result<i32, TgError>)
    ensures
        match (r, since_spec(s@, rfc3339_seconds(s@), ymd_midnight_seconds(s@))) {
            (Ok(a), Ok(b)) => a == b,
            (Err(e), Err(ev)) => e@ == ev,
            _ => false,
        },
{
    let rfc = parse_rfc3339(s);
    match rfc {
        // The date reading is consulted only when the RFC 3339 reading fails.
        Some(_) => since_timestamp(s, rfc, None),
        None => since_timestamp(s, rfc, parse_ymd_midnight(s)),
    }
}

/// How many messages to fetch: all of them when the oldest must be picked.
pub fn fetch_limit(oldest_first: bool, limit: i32) -> (r: i32)
    ensures
        r == (if oldest_first { i32::MAX } else { limit }),
{
    if oldest_first { i32::MAX } else { limit }
}

/// The id bound a boundary lookup gives the fetch.
pub fn until_from_boundary(b: BoundaryResult) -> (r: Option<i64>)
    ensures
        r == match b { BoundaryResult::BoundAt(id) => Some(id), _ => None },
{
    match b {
        BoundaryResult::BoundAt(id) => Some(id),
        _ => None,
    }
}

/// Messages at or after the cutoff.
pub open spec fn since_filter(ms: Seq<MessageInfo>, since: Option<i32>) -> Seq<MessageInfo> {
    match since {
        Some(ts) => ms.filter(|m: MessageInfo| m.timestamp >= ts),
        None => ms,
    }
}

/// What `get_messages` keeps of a fetch: the cutoff is applied first, then
/// `--oldest-first` reverses to chronological order and takes the first `limit`.
pub open spec fn finalize_spec(ms: Seq<MessageInfo>, since: Option<i32>, oldest_first: bool, limit: i32) -> Seq<
    MessageInfo,
> {
    let kept = since_filter(ms, since);
    if oldest_first {
        let rev = kept.reverse();
        let n = limit as usize as int;
        if rev.len() > n { rev.take(n) } else { rev }
    } else {
        kept
    }
}

/// Applies the cutoff and the ordering/limit rules to fetched messages.
pub fn finalize_messages(messages: Vec<MessageInfo>, since: Option<i32>, oldest_first: bool, limit: i32) -> (r:
    Vec<MessageInfo>)
    ensures
        r@ == finalize_spec(messages@, since, oldest_first, limit),
{
    let ghost orig = messages@;
    let mut kept: Vec<MessageInfo> = Vec::new();
    for m in it: messages.into_iter()
        invariant
            it.seq() == orig,
            kept@ == since_filter(orig.take(it.index() as int), since),
    {
        let ghost i = it.index() as int;
        proof {
            let t = orig.take(i + 1);
            assert(t.drop_last() == orig.take(i));
            assert(t.last() == m);
            match since {
                Some(ts) => {
                    reveal(Seq::filter);
                },
                None => {},
            }
        }
        let keep = match since {
            Some(ts) => m.timestamp >= ts,
            None => true,
        };
        if keep {
            kept.push(m);
        }
    }
    assert(orig.take(orig.len() as int) == orig);
    if !oldest_first {
        return kept;
    }
    let n: usize = limit as usize;
    let ghost full = kept@;
    let mut out: Vec<MessageInfo> = Vec::new();
    while kept.len() > 0 && out.len() < n
        invariant
            full == since_filter(orig, since),
            out@.len() <= n,
            kept@ == full.take(kept@.len() as int),
            kept@.len() <= full.len(),
            out@ == full.reverse().take(full.len() - kept@.len()),
        decreases kept@.len(),
    {
        let ghost before = kept@;
        let m = kept.pop().unwrap();
        out.push(m);
        assert(kept@ == full.take(kept@.len() as int));
        assert(out@ =~= full.reverse().take(full.len() - kept@.len()));
    }
    proof {
        let rev = full.reverse();
        assert(full == since_filter(orig, since));
        if kept@.len() == 0 {
            assert(rev.take(full.len() as int) == rev);
        } else {
            assert(out@.len() == n);
            if rev.len() == n {
                assert(rev.take(n as int) == rev);
            }
        }
    }
    out
}

/// A chat's messages as `tg messages` answers them.
#[derive(Debug)]
pub struct MessagesResult {
    pub chat_id: i64,
    pub messages: Vec<MessageInfo>,
}

/// The answer for `chat_id` from what the history walk fetched: the cutoff,
/// then the ordering and limit rules applied.
pub fn messages_result(
    chat_id: i64,
    fetched: Vec<MessageInfo>,
    since: Option<i32>,
    oldest_first: bool,
    limit: i32,
) -> (r: MessagesResult)
    ensures
        r.chat_id == chat_id,
        r.messages@ == finalize_spec(fetched@, since, oldest_first, limit),
{
    MessagesResult { chat_id, messages: finalize_messages(fetched, since, oldest_first, limit) }
}

/// The chat a socket `messages` request names: `chat` wins over `name`.
pub fn messages_target(req: &MessagesRequest) -> (r: Result<ChatTarget, TgError>)
    ensures
        match req.chat {
            Some(id) => r matches Ok(ChatTarget::Id(x)) && x == id,
            None => match req.name {
                Some(n) => r matches Ok(ChatTarget::Name(x)) && x@ == n@,
                None => r matches Err(e) && e@ == ErrorValue::Other("messages: either `chat` or `name` is required"@),
            },
        },
{
    match req.chat {
        Some(id) => Ok(ChatTarget::Id(id)),
        None => match &req.name {
            Some(n) => Ok(ChatTarget::Name(n.clone())),
            None => Err(TgError::Other(owned("messages: either `chat` or `name` is required"))),
        },
    }
}

/// Law: a cutoff is a guarantee. Whatever the fetch returned, nothing older
/// than the cutoff survives, and `--oldest-first` never returns more than `limit`.
pub proof fn lemma_finalize_respects_cutoff(ms: Seq<MessageInfo>, since: Option<i32>, oldest_first: bool, limit: i32)
    ensures
        ({
            let out = finalize_spec(ms, since, oldest_first, limit);
            &&& since matches Some(ts) ==> forall|k: int| 0 <= k < out.len() ==> (#[trigger] out[k]).timestamp >= ts
            &&& oldest_first ==> out.len() <= limit as usize as int
            &&& forall|k: int| 0 <= k < out.len() ==> ms.contains(#[trigger] out[k])
        }),
{
    let kept = since_filter(ms, since);
    match since {
        Some(ts) => {
            assert forall|k: int| 0 <= k < kept.len() implies (#[trigger] kept[k]).timestamp >= ts && ms.contains(kept[k]) by {
                assert(kept.contains(kept[k]));
                ms.lemma_filter_contains_rev(|m: MessageInfo| m.timestamp >= ts, kept[k]);
                ms.lemma_filter_pred(|m: MessageInfo| m.timestamp >= ts, k);
            }
        },
        None => {
            assert forall|k: int| 0 <= k < kept.len() implies ms.contains(#[trigger] kept[k]) by {
                assert(ms[k] == kept[k]);
            }
        },
    }
    let out = finalize_spec(ms, since, oldest_first, limit);
    if oldest_first {
        let rev = kept.reverse();
        assert forall|k: int| 0 <= k < out.len() implies out[k] == kept[kept.len() - 1 - k] by {}
    }
}

} // verus!
