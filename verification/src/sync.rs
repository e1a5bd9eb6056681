//! Bulk sync: the high-water-mark input, and the per-chat decisions of a sync
//! run (where a fetch stops, what is dropped of it, how a `--reconcile-days`
//! cutoff is looked up). The caller performs the fetches these name.

use vstd::prelude::*;
use std::collections::HashMap;
use crate::error::{error_text, TgError};
use crate::messages::BoundaryResult;
use crate::output::MessageInfo;
use crate::text::{concat2, parse_i64, parse_i64_spec};

verus! {

broadcast use vstd::std_specs::hash::group_hash_axioms;

/// Milliseconds to wait before the single retry of a boundary lookup.
pub const BOUNDARY_RETRY_DELAY_MS: u64 = 300;

/// Messages fetched per chat when no `--limit` is given.
pub const DEFAULT_SYNC_LIMIT: i32 = 1000;

/// Seconds in a day.
pub const SECONDS_PER_DAY: i64 = 86400;

/// Earliest Unix time a `chrono::DateTime<Utc>` can hold (-262143-01-01).
pub const EARLIEST_DATETIME: i64 = -8334601315200;

/// Per-chat outcome of a sync: the new messages, or what went wrong.
#[derive(Debug)]
pub enum SyncResult {
    Messages(Vec<MessageInfo>),
    Error { error: String },
}

/// The entries of the JSON object `input` as `serde_json` reads it into a
/// map from strings to `i64`, in key order, or the parser's error text.
pub uninterp spec fn json_i64_entries(input: Seq<char>) -> Result<Seq<(Seq<char>, i64)>, Seq<char>>;

pub open spec fn entries_view(v: Seq<(String, i64)>) -> Seq<(Seq<char>, i64)> {
    v.map_values(|e: (String, i64)| (e.0@, e.1))
}

/// `serde_json::from_str::<BTreeMap<String, i64>>(input)`, its entries in key
/// order, or the error's text.
#[verifier::external_body]
fn decode_i64_object(input: &str) -> (r: Result<Vec<(String, i64)>, String>)
    ensures
        match r {
            Ok(v) => json_i64_entries(input@) == Ok::<Seq<(Seq<char>, i64)>, Seq<char>>(entries_view(v@)),
            Err(e) => json_i64_entries(input@) == Err::<Seq<(Seq<char>, i64)>, Seq<char>>(e@),
        },
{
    match serde_json::from_str::<std::collections::BTreeMap<String, i64>>(input) {
        Ok(m) => Ok(m.into_iter().collect()),
        Err(e) => Err(e.to_string()),
    }
}

/// The map the entries spell, later entries winning, or the message for the
/// first key that is not a chat id.
pub open spec fn hwm_from_entries(entries: Seq<(Seq<char>, i64)>) -> Result<Map<i64, i64>, Seq<char>>
    decreases entries.len(),
{
    if entries.len() == 0 {
        Ok(Map::empty())
    } else {
        let (key, value) = entries.last();
        match hwm_from_entries(entries.drop_last()) {
            Err(e) => Err(e),
            Ok(m) => match parse_i64_spec(key) {
                None => Err("Invalid chat ID: "@ + key),
                Some(id) => Ok(m.insert(id, value)),
            },
        }
    }
}

/// What `parse_hwm_input` answers for the decoder's reading of the input.
pub open spec fn hwm_spec(decoded: Result<Seq<(Seq<char>, i64)>, Seq<char>>) -> Result<Map<i64, i64>, Seq<char>> {
    match decoded {
        Err(e) => Err("Invalid JSON: "@ + e),
        Ok(entries) => hwm_from_entries(entries),
    }
}

/// Read the high-water marks from the sync input: a JSON object from chat id
/// (as a string) to the last message id seen; `0` means "no mark yet".
pub fn parse_hwm_input(input: &str) -> (r: Result<HashMap<i64, i64>, String>)
    ensures
        match (r, hwm_spec(json_i64_entries(input@))) {
            (Ok(m), Ok(spec)) => m@ == spec,
            (Err(e), Err(spec)) => e@ == spec,
            _ => false,
        },
{
    let decoded = decode_i64_object(input);
    assert(decoded_view(decoded) == json_i64_entries(input@));
    hwm_from_decoded(decoded)
}

/// The decoder's view of a decoded result: its entries, or its error text.
pub open spec fn decoded_view(d: Result<Vec<(String, i64)>, String>) -> Result<Seq<(Seq<char>, i64)>, Seq<char>> {
    match d {
        Ok(v) => Ok(entries_view(v@)),
        Err(e) => Err(e@),
    }
}

/// The high-water marks from what the JSON decoder made of the input: its
/// entries (chat id as a string, last message id seen) or its error text.
pub fn hwm_from_decoded(decoded: Result<Vec<(String, i64)>, String>) -> (r: Result<HashMap<i64, i64>, String>)
    ensures
        match (r, hwm_spec(decoded_view(decoded))) {
            (Ok(m), Ok(spec)) => m@ == spec,
            (Err(e), Err(spec)) => e@ == spec,
            _ => false,
        },
{
    broadcast use vstd::std_specs::hash::axiom_i64_obeys_hash_table_key_model;
    let ghost d = decoded_view(decoded);
    let entries = match decoded {
        Ok(v) => v,
        Err(e) => return Err(concat2("Invalid JSON: ", e.as_str())),
    };
    let ghost all = entries_view(entries@);
    let mut result: HashMap<i64, i64> = HashMap::new();
    let mut i: usize = 0;
    assert(all.take(0) == Seq::<(Seq<char>, i64)>::empty());
    while i < entries.len()
        invariant
            0 <= i <= entries@.len(),
            all == entries_view(entries@),
            d == Ok::<Seq<(Seq<char>, i64)>, Seq<char>>(all),
            d == decoded_view(decoded),
            hwm_from_entries(all.take(i as int)) == Ok::<Map<i64, i64>, Seq<char>>(result@),
        decreases entries@.len() - i,
    {
        let key = &entries[i].0;
        let value = entries[i].1;
        assert(all.take(i + 1).drop_last() == all.take(i as int));
        assert(all.take(i + 1).last() == (key@, value));
        match parse_i64(key.as_str()) {
            None => {
                let msg = concat2("Invalid chat ID: ", key.as_str());
                proof {
                    let t = all.take(i + 1);
                    assert(t.last().0 == key@);
                    assert(hwm_from_entries(t) == Err::<Map<i64, i64>, Seq<char>>(msg@));
                    lemma_hwm_error_persists(all, i as int + 1, msg@);
                    assert(all.take(all.len() as int) == all);
                }
                return Err(msg);
            },
            Some(id) => {
                result.insert(id, value);
            },
        }
        i = i + 1;
    }
    assert(all.take(all.len() as int) == all);
    Ok(result)
}

/// Once a prefix of the entries is refused, every longer prefix is refused
/// with the same message.
proof fn lemma_hwm_error_persists(all: Seq<(Seq<char>, i64)>, n: int, msg: Seq<char>)
    requires
        0 <= n <= all.len(),
        hwm_from_entries(all.take(n)) == Err::<Map<i64, i64>, Seq<char>>(msg),
    ensures
        hwm_from_entries(all) == Err::<Map<i64, i64>, Seq<char>>(msg),
    decreases all.len() - n,
{
    if n < all.len() {
        assert(all.take(n + 1).drop_last() == all.take(n));
        lemma_hwm_error_persists(all, n + 1, msg);
    } else {
        assert(all.take(n) == all);
    }
}

/// The lower bound a mark gives the fetch: the mark itself, or none for `0`
/// (or any non-positive mark).
pub fn hwm_until(hwm_message_id: i64) -> (r: Option<i64>)
    ensures
        r == (if hwm_message_id > 0 { Some(hwm_message_id) } else { None::<i64> }),
{
    if hwm_message_id > 0 { Some(hwm_message_id) } else { None }
}

/// The messages of `ms` whose id is not `id`.
pub open spec fn without_id(ms: Seq<MessageInfo>, id: i64) -> Seq<MessageInfo> {
    ms.filter(|m: MessageInfo| m.id != id)
}

/// Messages at or after `timestamp`.
pub open spec fn since_timestamp_filter(ms: Seq<MessageInfo>, timestamp: i32) -> Seq<MessageInfo> {
    ms.filter(|m: MessageInfo| m.timestamp >= timestamp)
}

/// `ms` without the messages whose id is `id`.
fn drop_id(messages: Vec<MessageInfo>, id: i64) -> (r: Vec<MessageInfo>)
    ensures
        r@ == without_id(messages@, id),
{
    let ghost orig = messages@;
    let mut kept: Vec<MessageInfo> = Vec::new();
    for m in it: messages.into_iter()
        invariant
            it.seq() == orig,
            kept@ == without_id(orig.take(it.index() as int), id),
    {
        let ghost i = it.index() as int;
        proof {
            let t = orig.take(i + 1);
            assert(t.drop_last() == orig.take(i));
            assert(t.last() == m);
            reveal(Seq::filter);
        }
        if m.id != id {
            kept.push(m);
        }
    }
    assert(orig.take(orig.len() as int) == orig);
    kept
}

/// `ms` without the messages older than `timestamp`.
fn keep_since(messages: Vec<MessageInfo>, timestamp: i32) -> (r: Vec<MessageInfo>)
    ensures
        r@ == since_timestamp_filter(messages@, timestamp),
{
    let ghost orig = messages@;
    let mut kept: Vec<MessageInfo> = Vec::new();
    for m in it: messages.into_iter()
        invariant
            it.seq() == orig,
            kept@ == since_timestamp_filter(orig.take(it.index() as int), timestamp),
    {
        let ghost i = it.index() as int;
        proof {
            let t = orig.take(i + 1);
            assert(t.drop_last() == orig.take(i));
            assert(t.last() == m);
            reveal(Seq::filter);
        }
        if m.timestamp >= timestamp {
            kept.push(m);
        }
    }
    assert(orig.take(orig.len() as int) == orig);
    kept
}

/// The spec of a sync outcome: the messages' view, or the error text.
pub open spec fn sync_view(r: SyncResult) -> Result<Seq<MessageInfo>, Seq<char>> {
    match r {
        SyncResult::Messages(v) => Ok(v@),
        SyncResult::Error { error } => Err(error@),
    }
}

/// The outcome of syncing one chat from its mark: the fetch's messages
/// without the mark's own message (it was already ingested), or the fetch's
/// error as text.
pub fn finish_chat_sync(fetched: Result<Vec<MessageInfo>, TgError>, hwm_message_id: i64) -> (r: SyncResult)
    ensures
        sync_view(r) == match fetched {
            Ok(v) => Ok(if hwm_message_id > 0 { without_id(v@, hwm_message_id) } else { v@ }),
            Err(e) => Err::<Seq<MessageInfo>, Seq<char>>(error_text(e@)),
        },
{
    match fetched {
        Ok(messages) => {
            if hwm_message_id > 0 {
                SyncResult::Messages(drop_id(messages, hwm_message_id))
            } else {
                SyncResult::Messages(messages)
            }
        },
        Err(e) => SyncResult::Error { error: e.to_string() },
    }
}

/// The next step of a `--reconcile-days` sync after a boundary lookup.
#[derive(Debug)]
pub enum ReconcileStep {
    /// Fetch with this lower bound; `filter` keeps only messages at or after
    /// the cutoff (used when no boundary message was found).
    Fetch { until: Option<i64>, filter: bool },
    /// Wait `BOUNDARY_RETRY_DELAY_MS` and look the boundary up once more.
    Retry,
    /// The chat's outcome is known.
    Finish(SyncResult),
}

/// After the warm-up fetch and the first boundary lookup.
pub fn first_lookup_step(warmup: Result<(), TgError>, lookup: Result<BoundaryResult, TgError>) -> (r: ReconcileStep)
    ensures
        match warmup {
            Err(e) => r matches ReconcileStep::Finish(s) && sync_view(s) == Err::<Seq<MessageInfo>, Seq<char>>(error_text(e@)),
            Ok(_) => match lookup {
                Err(e) => r matches ReconcileStep::Finish(s) && sync_view(s) == Err::<Seq<MessageInfo>, Seq<char>>(error_text(e@)),
                Ok(BoundaryResult::Empty) => r matches ReconcileStep::Finish(s) && sync_view(s) == Ok::<Seq<MessageInfo>, Seq<char>>(Seq::empty()),
                Ok(BoundaryResult::BoundAt(id)) => r matches ReconcileStep::Fetch { until, filter } && until == Some(id) && !filter,
                Ok(BoundaryResult::Unbounded) => r is Retry,
            },
        },
{
    if let Err(e) = warmup {
        return ReconcileStep::Finish(SyncResult::Error { error: e.to_string() });
    }
    match lookup {
        Err(e) => ReconcileStep::Finish(SyncResult::Error { error: e.to_string() }),
        Ok(BoundaryResult::Empty) => ReconcileStep::Finish(SyncResult::Messages(Vec::new())),
        Ok(BoundaryResult::BoundAt(id)) => ReconcileStep::Fetch { until: Some(id), filter: false },
        Ok(BoundaryResult::Unbounded) => ReconcileStep::Retry,
    }
}

/// After the retried boundary lookup: a boundary found bounds the fetch;
/// otherwise the fetch is unbounded and filtered by time.
pub fn retry_lookup_step(lookup: Result<BoundaryResult, TgError>) -> (r: ReconcileStep)
    ensures
        match lookup {
            Err(e) => r matches ReconcileStep::Finish(s) && sync_view(s) == Err::<Seq<MessageInfo>, Seq<char>>(error_text(e@)),
            Ok(BoundaryResult::BoundAt(id)) => r matches ReconcileStep::Fetch { until, filter } && until == Some(id) && !filter,
            Ok(_) => r matches ReconcileStep::Fetch { until, filter } && until is None && filter,
        },
{
    match lookup {
        Err(e) => ReconcileStep::Finish(SyncResult::Error { error: e.to_string() }),
        Ok(BoundaryResult::BoundAt(id)) => ReconcileStep::Fetch { until: Some(id), filter: false },
        Ok(_) => ReconcileStep::Fetch { until: None, filter: true },
    }
}

/// The outcome of a reconcile fetch: with `filter`, only the messages at or
/// after the cutoff are kept.
pub fn finish_reconcile(fetched: Result<Vec<MessageInfo>, TgError>, filter: bool, timestamp: i32) -> (r: SyncResult)
    ensures
        sync_view(r) == match fetched {
            Ok(v) => Ok(if filter { since_timestamp_filter(v@, timestamp) } else { v@ }),
            Err(e) => Err::<Seq<MessageInfo>, Seq<char>>(error_text(e@)),
        },
{
    match fetched {
        Ok(messages) => {
            if filter {
                SyncResult::Messages(keep_since(messages, timestamp))
            } else {
                SyncResult::Messages(messages)
            }
        },
        Err(e) => SyncResult::Error { error: e.to_string() },
    }
}

pub open spec fn cutoff_of(now: i64, days: u32) -> i32 {
    (now - days * SECONDS_PER_DAY) as i32
}

/// The cutoff `days` days before `now`, as the `i32` TDLib takes (the value
/// is truncated to 32 bits, as the cast does).
pub fn reconcile_cutoff(now: i64, days: u32) -> (r: i32)
    requires
        now - days * SECONDS_PER_DAY >= EARLIEST_DATETIME,
    ensures
        r == cutoff_of(now, days),
{
    let cutoff: i64 = now - (days as i64) * SECONDS_PER_DAY;
    cutoff as i32
}

/// The cutoff `days` days before the clock reading `now`, or `None` when it
/// would fall before the earliest time a date can hold.
pub open spec fn reconcile_spec(now: i64, days: u32) -> Option<i32> {
    if now - days * SECONDS_PER_DAY >= EARLIEST_DATETIME {
        Some(cutoff_of(now, days))
    } else {
        None
    }
}

/// The cutoff of `--reconcile-days days` for the clock reading `now` (the
/// caller reads the clock); `None` when it would fall before the earliest
/// time a date can hold. A reading at or after the Unix epoch has a cutoff
/// for every span of up to `-EARLIEST_DATETIME` seconds.
pub fn reconcile_timestamp(now: i64, days: u32) -> (r: Option<i32>)
    ensures
        r == reconcile_spec(now, days),
        now >= 0 && days * SECONDS_PER_DAY <= -EARLIEST_DATETIME ==> r is Some,
{
    if now >= EARLIEST_DATETIME + (days as i64) * SECONDS_PER_DAY {
        Some(reconcile_cutoff(now, days))
    } else {
        None
    }
}

/// Law: a chat's sync never hands back the message its mark names (it was
/// already ingested), and keeps every other fetched message, in order.
pub proof fn lemma_mark_message_excluded(ms: Seq<MessageInfo>, mark: i64)
    requires
        mark > 0,
    ensures
        forall|k: int| 0 <= k < without_id(ms, mark).len() ==> (#[trigger] without_id(ms, mark)[k]).id != mark,
        forall|k: int| 0 <= k < ms.len() && ms[k].id != mark ==> without_id(ms, mark).contains(#[trigger] ms[k]),
{
    let kept = without_id(ms, mark);
    assert forall|k: int| 0 <= k < kept.len() implies (#[trigger] kept[k]).id != mark by {
        ms.lemma_filter_pred(|m: MessageInfo| m.id != mark, k);
    }
    assert forall|k: int| 0 <= k < ms.len() && ms[k].id != mark implies kept.contains(#[trigger] ms[k]) by {
        ms.lemma_filter_contains(|m: MessageInfo| m.id != mark, k);
    }
}

} // verus!
