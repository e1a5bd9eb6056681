//! Gathering the chats a listing shows. TDLib's chat list grows on demand:
//! the walk asks for `fetch_limit` ids, looks at every id it has not seen,
//! keeps the chats the filter admits, and doubles `fetch_limit` while the
//! list keeps growing. The caller fetches the ids and the snapshots.

use vstd::prelude::*;
use std::collections::HashSet;
use crate::output::ChatInfo;
use crate::text::{clone_opt, owned};
use crate::media::opt_view;

verus! {

broadcast use vstd::std_specs::hash::group_hash_axioms;

/// The kind of a chat, as far as the listings care.
#[derive(Debug, Clone, Copy, PartialEq, Eq, Structural)]
pub enum ChatTypeKind {
    Private,
    BasicGroup,
    Supergroup,
    Other,
}

/// What the listings read of a chat.
#[derive(Debug, Clone)]
pub struct ChatSnapshot {
    pub id: i64,
    pub title: String,
    pub unread_count: i32,
    pub last_message: Option<String>,
    pub chat_type: ChatTypeKind,
    /// The chat's bot marker (see `chat_bot_marker`).
    pub is_bot: Option<bool>,
}

impl ChatSnapshot {
    /// The row a listing prints for this chat.
    pub fn to_chat_info(&self) -> (r: ChatInfo)
        ensures
            r.id == self.id,
            r.name@ == self.title@,
            r.unread_count == self.unread_count,
            opt_view(r.last_message) == opt_view(self.last_message),
            r.is_bot == self.is_bot,
    {
        ChatInfo {
            id: self.id,
            name: owned(self.title.as_str()),
            unread_count: self.unread_count,
            last_message: clone_opt(&self.last_message),
            is_bot: self.is_bot,
        }
    }
}

/// Which chats a listing keeps.
#[derive(Debug, Clone, Copy, PartialEq, Eq, Structural)]
pub enum ChatFilter {
    /// One-to-one chats (`chats`).
    Private,
    /// Basic groups and supergroups (`groups`).
    Groups,
    /// Chats with unread messages (`unread`).
    Unread,
}

pub open spec fn admits(f: ChatFilter, s: ChatSnapshot) -> bool {
    match f {
        ChatFilter::Private => s.chat_type == ChatTypeKind::Private,
        ChatFilter::Groups => s.chat_type == ChatTypeKind::BasicGroup || s.chat_type == ChatTypeKind::Supergroup,
        ChatFilter::Unread => s.unread_count > 0,
    }
}

/// Law: the `chats` and `groups` listings split the one-to-one and group
/// chats between them. A private chat is listed by `chats` only; a basic
/// group and a supergroup alike are listed by `groups` only; a chat of any
/// other kind by neither. `unread` lists exactly the chats with unread
/// messages, whatever their kind.
pub proof fn lemma_listings_split_chats(s: ChatSnapshot)
    ensures
        s.chat_type == ChatTypeKind::Private ==> admits(ChatFilter::Private, s) && !admits(ChatFilter::Groups, s),
        s.chat_type == ChatTypeKind::BasicGroup ==> admits(ChatFilter::Groups, s) && !admits(ChatFilter::Private, s),
        s.chat_type == ChatTypeKind::Supergroup ==> admits(ChatFilter::Groups, s) && !admits(ChatFilter::Private, s),
        s.chat_type == ChatTypeKind::Other ==> !admits(ChatFilter::Groups, s) && !admits(ChatFilter::Private, s),
        admits(ChatFilter::Unread, s) <==> s.unread_count > 0,
{
}

/// Law: whether a chat is listed depends on its kind and unread count
/// alone: two chats of one kind are both listed by `chats` and `groups` or
/// both left out, and a chat's title never decides.
pub proof fn lemma_listing_depends_on_kind(f: ChatFilter, a: ChatSnapshot, b: ChatSnapshot)
    requires
        a.chat_type == b.chat_type,
        f != ChatFilter::Unread || a.unread_count == b.unread_count,
    ensures
        admits(f, a) == admits(f, b),
{
}

impl ChatFilter {
    pub fn admits(&self, s: &ChatSnapshot) -> (r: bool)
        ensures
            r == admits(*self, *s),
    {
        match self {
            ChatFilter::Private => s.chat_type == ChatTypeKind::Private,
            ChatFilter::Groups => s.chat_type == ChatTypeKind::BasicGroup || s.chat_type == ChatTypeKind::Supergroup,
            ChatFilter::Unread => s.unread_count > 0,
        }
    }
}

/// The walk over the chat list.
pub struct ChatCollection {
    /// How many chats the listing wants.
    pub limit: i32,
    /// Chats kept so far, in list order.
    pub result: Vec<ChatInfo>,
    /// Every id looked at.
    pub seen: HashSet<i64>,
    /// How many ids the next round asks for.
    pub fetch_limit: i32,
    /// How many ids the previous round returned.
    pub previous_total: usize,
    /// Nothing more is asked for.
    pub done: bool,
}

/// The chat `id` is among those kept.
pub open spec fn kept(c: ChatCollection, id: i64) -> bool {
    exists|i: int| 0 <= i < c.result@.len() && (#[trigger] c.result@[i]).id == id
}

/// The invariant of the walk: never more than `limit` chats, and once
/// `limit` are kept the walk is over; every chat kept was looked at, and no
/// chat is kept twice.
pub open spec fn collection_inv(c: ChatCollection) -> bool {
    &&& c.limit > 0 ==> c.result@.len() <= c.limit
    &&& c.limit <= 0 ==> c.result@.len() == 0 && c.done
    &&& c.fetch_limit >= 1
    &&& (c.result@.len() >= c.limit ==> c.done)
    &&& forall|i: int| 0 <= i < c.result@.len() ==> c.seen@.contains((#[trigger] c.result@[i]).id)
    &&& forall|i: int, j: int| 0 <= i < j < c.result@.len() ==> (#[trigger] c.result@[i]).id != (#[trigger] c.result@[j]).id
}

impl ChatCollection {
    /// A walk that wants `limit` chats; a `limit` of zero or less asks for
    /// nothing and answers an empty list.
    pub fn new(limit: i32) -> (r: ChatCollection)
        ensures
            collection_inv(r),
            r.limit == limit,
            r.result@.len() == 0,
            r.seen@ == Set::<i64>::empty(),
            r.fetch_limit == (if limit >= 1 { limit } else { 1 }),
            r.previous_total == 0,
            r.done == (limit <= 0),
    {
        ChatCollection {
            limit,
            result: Vec::new(),
            seen: HashSet::new(),
            fetch_limit: if limit >= 1 { limit } else { 1 },
            previous_total: 0,
            done: limit <= 0,
        }
    }

    /// How many ids to ask for next, or `None` when the walk is over.
    pub fn next_fetch(&self) -> (r: Option<i32>)
        ensures
            r == (if self.done { None } else { Some(self.fetch_limit) }),
    {
        if self.done { None } else { Some(self.fetch_limit) }
    }

    /// Mark `chat_id` as looked at; `true` when it is new and its snapshot
    /// should be fetched. A chat claimed as new is not kept yet, so it may be
    /// offered.
    pub fn claim(&mut self, chat_id: i64) -> (r: bool)
        ensures
            r == !old(self).seen@.contains(chat_id),
            collection_inv(*old(self)) ==> collection_inv(*final(self)),
            collection_inv(*old(self)) && r ==> !kept(*final(self), chat_id),
            final(self).seen@ == old(self).seen@.insert(chat_id),
            final(self).result@ == old(self).result@,
            final(self).limit == old(self).limit,
            final(self).fetch_limit == old(self).fetch_limit,
            final(self).previous_total == old(self).previous_total,
            final(self).done == old(self).done,
    {
        broadcast use vstd::std_specs::hash::axiom_i64_obeys_hash_table_key_model;
        self.seen.insert(chat_id)
    }

    /// Hand over the snapshot fetched for the claimed chat `chat_id`, which
    /// is not kept yet (`None` when fetching it failed; a snapshot of another
    /// chat counts as no snapshot): the chat is kept when the filter admits
    /// it. Answers whether the walk is over.
    pub fn offer(&mut self, chat_id: i64, snapshot: Option<ChatSnapshot>, filter: ChatFilter) -> (r: bool)
        requires
            collection_inv(*old(self)),
            !old(self).done,
            old(self).seen@.contains(chat_id),
            !kept(*old(self), chat_id),
        ensures
            collection_inv(*final(self)),
            final(self).seen@ == old(self).seen@,
            final(self).limit == old(self).limit,
            final(self).fetch_limit == old(self).fetch_limit,
            final(self).previous_total == old(self).previous_total,
            match snapshot {
                Some(s) if s.id == chat_id && admits(filter, s) => {
                    &&& final(self).result@.len() == old(self).result@.len() + 1
                    &&& final(self).result@.drop_last() == old(self).result@
                    &&& final(self).result@.last().id == chat_id
                    &&& final(self).result@.last().name@ == s.title@
                    &&& final(self).result@.last().unread_count == s.unread_count
                    &&& opt_view(final(self).result@.last().last_message) == opt_view(s.last_message)
                    &&& final(self).result@.last().is_bot == s.is_bot
                },
                _ => final(self).result@ == old(self).result@,
            },
            r == final(self).done,
            final(self).done == (final(self).result@.len() >= final(self).limit),
    {
        if let Some(s) = snapshot {
            if s.id == chat_id && filter.admits(&s) {
                let info = s.to_chat_info();
                self.result.push(info);
                if self.result.len() >= self.limit as usize {
                    self.done = true;
                }
            }
        }
        self.done
    }

    /// Close a round in which the list answered `total` ids: stop when the
    /// list did not grow, or gave fewer ids than asked, or `fetch_limit`
    /// cannot double any more; otherwise double `fetch_limit`.
    pub fn end_round(&mut self, total: usize)
        requires
            collection_inv(*old(self)),
        ensures
            collection_inv(*final(self)),
            final(self).result@ == old(self).result@,
            final(self).seen@ == old(self).seen@,
            final(self).limit == old(self).limit,
            ({
                let grew = total > old(self).previous_total;
                let short = total < old(self).fetch_limit as int;
                let doubled = if old(self).fetch_limit as int * 2 > i32::MAX { i32::MAX as int } else { old(self).fetch_limit as int * 2 };
                if !grew {
                    final(self).done && final(self).previous_total == old(self).previous_total
                        && final(self).fetch_limit == old(self).fetch_limit
                } else if short || doubled == old(self).fetch_limit {
                    final(self).done && final(self).previous_total == total
                        && final(self).fetch_limit == old(self).fetch_limit
                } else {
                    final(self).done == old(self).done && final(self).previous_total == total
                        && final(self).fetch_limit == doubled
                }
            }),
    {
        if total <= self.previous_total {
            self.done = true;
            return;
        }
        self.previous_total = total;
        if total < self.fetch_limit as usize {
            self.done = true;
            return;
        }
        let next: i32 = if self.fetch_limit > i32::MAX / 2 { i32::MAX } else { self.fetch_limit * 2 };
        if next == self.fetch_limit {
            self.done = true;
            return;
        }
        self.fetch_limit = next;
    }

    /// The chats kept, in list order.
    pub fn into_result(self) -> (r: Vec<ChatInfo>)
        ensures
            r@ == self.result@,
    {
        self.result
    }
}

} // verus!
