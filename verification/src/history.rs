//! Paging through a chat's history, newest first. TDLib hands out batches of
//! at most 100 messages and sometimes an empty batch while it syncs; the
//! decisions of the walk (what to ask for next, which messages are new, where
//! the boundary stops it, when to give up) are a state machine here, and the
//! caller performs the fetches and the waits it asks for.

use vstd::prelude::*;
use std::collections::HashSet;
use crate::output::MessageInfo;

verus! {

broadcast use vstd::std_specs::hash::group_hash_axioms;

/// Consecutive empty batches tolerated before the walk gives up.
pub const MAX_EMPTY_ATTEMPTS: u32 = 5;

/// Largest batch asked of TDLib.
pub const MAX_BATCH: i32 = 100;

/// The walk so far.
pub struct Pagination {
    /// Messages collected, newest first.
    pub result: Vec<MessageInfo>,
    /// Where the next batch starts (0 = the newest message).
    pub from_message_id: i64,
    /// Every id any batch has carried.
    pub seen: HashSet<i64>,
    /// Empty batches in a row.
    pub empty_attempts: u32,
    /// The walk has stopped (boundary reached or history exhausted).
    pub done: bool,
}

/// What the caller does after handing a batch back.
#[derive(Debug, Clone, Copy, PartialEq, Eq, Structural)]
pub enum AfterBatch {
    /// Ask for the next batch right away.
    Continue,
    /// The batch was empty: wait 300 ms, then ask again.
    Wait,
    /// The walk is over.
    Stop,
}

pub open spec fn ids_of(ms: Seq<MessageInfo>) -> Seq<i64> {
    ms.map_values(|m: MessageInfo| m.id)
}

/// The messages of `batch` whose ids neither `seen` nor an earlier message of
/// the batch carried, in batch order.
pub open spec fn fresh_of(batch: Seq<MessageInfo>, seen: Set<i64>) -> Seq<MessageInfo>
    decreases batch.len(),
{
    if batch.len() == 0 {
        Seq::empty()
    } else if seen.contains(batch[0].id) {
        fresh_of(batch.drop_first(), seen)
    } else {
        seq![batch[0]] + fresh_of(batch.drop_first(), seen.insert(batch[0].id))
    }
}

/// `seen` with every id of `batch` added.
pub open spec fn seen_after(batch: Seq<MessageInfo>, seen: Set<i64>) -> Set<i64>
    decreases batch.len(),
{
    if batch.len() == 0 {
        seen
    } else {
        seen_after(batch.drop_first(), seen.insert(batch[0].id))
    }
}

/// Walking the fresh messages into the result: a message older than the
/// boundary stops the walk without being kept, the boundary message itself is
/// kept and stops it, and reaching `limit` stops it. The flag says whether
/// the boundary was hit.
pub open spec fn walk(result: Seq<MessageInfo>, fresh: Seq<MessageInfo>, limit: int, until: Option<i64>) -> (Seq<
    MessageInfo,
>, bool)
    decreases fresh.len(),
{
    if fresh.len() == 0 {
        (result, false)
    } else {
        let m = fresh[0];
        if until matches Some(b) && m.id < b {
            (result, true)
        } else {
            let r2 = result.push(m);
            if until matches Some(b) && m.id == b {
                (r2, true)
            } else if r2.len() >= limit {
                (r2, false)
            } else {
                walk(r2, fresh.drop_first(), limit, until)
            }
        }
    }
}

/// The invariant of the walk: result ids are distinct, all were seen, none is
/// below the boundary.
pub open spec fn pagination_inv(result: Seq<MessageInfo>, seen: Set<i64>, until: Option<i64>) -> bool {
    &&& forall|i: int, j: int| 0 <= i < j < result.len() ==> (#[trigger] result[i]).id != (#[trigger] result[j]).id
    &&& forall|i: int| 0 <= i < result.len() ==> seen.contains(#[trigger] result[i].id)
    &&& until matches Some(b) ==> forall|i: int| 0 <= i < result.len() ==> (#[trigger] result[i]).id >= b
}

impl Pagination {
    pub fn new() -> (r: Pagination)
        ensures
            r.result@.len() == 0,
            r.from_message_id == 0,
            r.seen@ == Set::<i64>::empty(),
            r.empty_attempts == 0,
            !r.done,
    {
        Pagination {
            result: Vec::new(),
            from_message_id: 0,
            seen: HashSet::new(),
            empty_attempts: 0,
            done: false,
        }
    }

    /// The next batch to ask for, `(from_message_id, batch_limit)`, or `None`
    /// when the walk is over: it stopped, or `limit` messages are collected.
    pub fn next_request(&self, limit: usize) -> (r: Option<(i64, i32)>)
        ensures
            (self.done || self.result@.len() >= limit) ==> r is None,
            !(self.done || self.result@.len() >= limit) ==> r == Some((
                self.from_message_id,
                if limit - self.result@.len() < MAX_BATCH { (limit - self.result@.len()) as i32 } else { MAX_BATCH },
            )),
    {
        if self.done || self.result.len() >= limit {
            return None;
        }
        let remaining: usize = limit - self.result.len();
        let n: i32 = if remaining < 100 { remaining as i32 } else { MAX_BATCH };
        Some((self.from_message_id, n))
    }

    /// Hand a fetched batch (newest first) to the walk.
    pub fn absorb(&mut self, batch: Vec<MessageInfo>, limit: usize, until: Option<i64>) -> (r: AfterBatch)
        requires
            pagination_inv(old(self).result@, old(self).seen@, until),
            old(self).result@.len() < limit,
        ensures
            pagination_inv(final(self).result@, final(self).seen@, until),
            final(self).result@.len() <= limit,
            final(self).seen@ == seen_after(batch@, old(self).seen@),
            ({
                let fresh = fresh_of(batch@, old(self).seen@);
                if fresh.len() == 0 {
                    &&& final(self).result@ == old(self).result@
                    &&& final(self).from_message_id == old(self).from_message_id
                    &&& if old(self).empty_attempts as int + 1 >= MAX_EMPTY_ATTEMPTS {
                        r == AfterBatch::Stop && final(self).done
                    } else {
                        r == AfterBatch::Wait && final(self).done == old(self).done
                            && final(self).empty_attempts == old(self).empty_attempts + 1
                    }
                } else {
                    let (res, hit) = walk(old(self).result@, fresh, limit as int, until);
                    &&& final(self).result@ == res
                    &&& final(self).empty_attempts == 0
                    &&& final(self).from_message_id == fresh.last().id
                    &&& final(self).done == (old(self).done || hit)
                    &&& r == (if hit { AfterBatch::Stop } else { AfterBatch::Continue })
                }
            }),
    {
        broadcast use vstd::std_specs::hash::axiom_i64_obeys_hash_table_key_model;
        let ghost seen0 = self.seen@;
        let ghost result0 = self.result@;
        // Keep the messages no earlier batch (or earlier message) carried.
        let mut fresh: Vec<MessageInfo> = Vec::new();
        let ghost orig = batch@;
        assert(orig.skip(0) == orig);
        for m in it: batch.into_iter()
            invariant
                it.seq() == orig,
                fresh_of(orig, seen0) == fresh@ + fresh_of(orig.skip(it.index() as int), self.seen@),
                seen_after(orig, seen0) == seen_after(orig.skip(it.index() as int), self.seen@),
                self.result@ == result0,
                self.from_message_id == old(self).from_message_id,
                self.empty_attempts == old(self).empty_attempts,
                self.done == old(self).done,
                pagination_inv(self.result@, self.seen@, until),
                forall|k: int| 0 <= k < fresh@.len() ==> self.seen@.contains(#[trigger] fresh@[k].id),
                forall|k: int| 0 <= k < fresh@.len() ==> !seen0.contains(#[trigger] fresh@[k].id),
                forall|i: int, j: int| 0 <= i < j < fresh@.len() ==> (#[trigger] fresh@[i]).id != (#[trigger] fresh@[j]).id,
                seen0.subset_of(self.seen@),
        {
            let ghost i = it.index() as int;
            let ghost rest = orig.skip(i);
            let ghost fresh_before = fresh@;
            assert(rest.drop_first() == orig.skip(i + 1));
            assert(rest[0] == m);
            let ghost seen_before = self.seen@;
            let inserted = self.seen.insert(m.id);
            assert(self.seen@ == seen_before.insert(m.id));
            if inserted {
                assert(!seen_before.contains(m.id));
                assert(fresh_of(rest, seen_before) == seq![m] + fresh_of(orig.skip(i + 1), self.seen@));
                fresh.push(m);
                assert(fresh_before + (seq![m] + fresh_of(orig.skip(i + 1), self.seen@)) == fresh@ + fresh_of(orig.skip(i + 1), self.seen@));
            } else {
                assert(seen_before.contains(m.id));
                assert(self.seen@ =~= seen_before);
                assert(fresh_of(rest, seen_before) == fresh_of(orig.skip(i + 1), self.seen@));
            }
            assert(seen_after(rest, seen_before) == seen_after(orig.skip(i + 1), self.seen@));
        }
        let ghost end = orig.skip(orig.len() as int);
        assert(end.len() == 0);
        assert(fresh_of(end, self.seen@) == Seq::<MessageInfo>::empty());
        assert(seen_after(end, self.seen@) == self.seen@);
        assert(fresh@ + Seq::<MessageInfo>::empty() == fresh@);
        assert(fresh_of(orig, seen0) == fresh@);
        assert(seen_after(orig, seen0) == self.seen@);
        if fresh.len() == 0 {
            if self.empty_attempts >= MAX_EMPTY_ATTEMPTS - 1 {
                self.done = true;
                return AfterBatch::Stop;
            }
            self.empty_attempts = self.empty_attempts + 1;
            return AfterBatch::Wait;
        }
        self.empty_attempts = 0;
        self.from_message_id = fresh[fresh.len() - 1].id;
        let ghost fresh_all = fresh@;
        let n: usize = limit;
        let mut hit = false;
        let mut stop = false;
        let ghost mut pos: int = 0;
        assert(fresh_all.skip(0) == fresh_all);
        let ghost mid = *self;
        for m in it: fresh.into_iter()
            invariant
                it.seq() == fresh_all,
                self.seen@ == mid.seen@,
                self.from_message_id == mid.from_message_id,
                self.empty_attempts == mid.empty_attempts,
                self.done == mid.done,
                !stop ==> pos == it.index(),
                0 <= pos <= fresh_all.len(),
                !stop ==> walk(result0, fresh_all, n as int, until) == walk(self.result@, fresh_all.skip(pos), n as int, until),
                stop ==> walk(result0, fresh_all, n as int, until) == (self.result@, hit),
                !stop ==> !hit,
                !stop ==> self.result@.len() < n,
                pagination_inv(self.result@, self.seen@, until),
                forall|k: int| pos <= k < fresh_all.len() ==> self.seen@.contains(#[trigger] fresh_all[k].id),
                forall|k: int| pos <= k < fresh_all.len() ==> forall|j: int| 0 <= j < self.result@.len() ==> #[trigger] self.result@[j].id != #[trigger] fresh_all[k].id,
                forall|i: int, j: int| 0 <= i < j < fresh_all.len() ==> (#[trigger] fresh_all[i]).id != (#[trigger] fresh_all[j]).id,
        {
            if !stop {
                let ghost rest = fresh_all.skip(pos);
                assert(rest[0] == m);
                assert(rest.drop_first() == fresh_all.skip(pos + 1));
                let below = match until {
                    Some(b) => m.id < b,
                    None => false,
                };
                if below {
                    hit = true;
                    stop = true;
                } else {
                    let id = m.id;
                    self.result.push(m);
                    proof {
                        pos = pos + 1;
                    }
                    let at = match until {
                        Some(b) => id == b,
                        None => false,
                    };
                    if at {
                        hit = true;
                        stop = true;
                    } else if self.result.len() >= n {
                        stop = true;
                    }
                }
            }
        }
        proof {
            lemma_walk_bounded(result0, fresh_all, n as int, until);
        }
        if hit {
            self.done = true;
            AfterBatch::Stop
        } else {
            AfterBatch::Continue
        }
    }
}

/// Law: a step of the walk keeps what was collected, in order, and never
/// collects more than `limit` messages.
pub proof fn lemma_walk_bounded(result: Seq<MessageInfo>, fresh: Seq<MessageInfo>, limit: int, until: Option<i64>)
    requires
        result.len() < limit,
    ensures
        walk(result, fresh, limit, until).0.len() <= limit,
        walk(result, fresh, limit, until).0.len() >= result.len(),
        walk(result, fresh, limit, until).0.take(result.len() as int) == result,
    decreases fresh.len(),
{
    if fresh.len() > 0 {
        let m = fresh[0];
        let r2 = result.push(m);
        if until matches Some(b) && m.id < b {
        } else if until matches Some(b) && m.id == b {
            assert(r2.take(result.len() as int) == result);
        } else if r2.len() >= limit {
            assert(r2.take(result.len() as int) == result);
        } else {
            lemma_walk_bounded(r2, fresh.drop_first(), limit, until);
            let w = walk(r2, fresh.drop_first(), limit, until).0;
            assert(w.take(result.len() as int) == w.take(r2.len() as int).take(result.len() as int));
            assert(r2.take(result.len() as int) == result);
        }
    }
}

} // verus!
