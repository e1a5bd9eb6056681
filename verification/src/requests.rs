//! The requests each command takes, over the socket or from the command
//! line, with their defaults.

use vstd::prelude::*;
use crate::cli::{ChatsArgs, DownloadArgs, GroupsArgs, MarkUnreadArgs, SearchArgs, UnreadArgs};
use crate::error::{ErrorValue, TgError};
use crate::text::owned;

verus! {

/// Chats listed when a request names no limit.
pub const DEFAULT_LIST_LIMIT: i32 = 50;

/// TDLib download priority when a request names none.
pub const DEFAULT_PRIORITY: i32 = 16;

pub fn default_limit() -> (r: i32)
    ensures
        r == DEFAULT_LIST_LIMIT,
{
    DEFAULT_LIST_LIMIT
}

pub fn default_priority() -> (r: i32)
    ensures
        r == DEFAULT_PRIORITY,
{
    DEFAULT_PRIORITY
}

/// Where downloads go when a request names no directory: the working directory.
pub fn default_output_dir() -> (r: String)
    ensures
        r@ == "."@,
{
    owned(".")
}

#[derive(Debug, Clone)]
pub struct ChatsRequest {
    pub limit: i32,
}

impl Default for ChatsRequest {
    fn default() -> (r: Self)
        ensures
            r.limit == DEFAULT_LIST_LIMIT,
    {
        ChatsRequest { limit: default_limit() }
    }
}

impl From<ChatsArgs> for ChatsRequest {
    fn from(args: ChatsArgs) -> (r: Self) {
        ChatsRequest { limit: args.limit }
    }
}

impl vstd::std_specs::convert::FromSpecImpl<ChatsArgs> for ChatsRequest {
    open spec fn obeys_from_spec() -> bool {
        true
    }

    open spec fn from_spec(args: ChatsArgs) -> Self {
        ChatsRequest { limit: args.limit }
    }
}

#[derive(Debug, Clone)]
pub struct GroupsRequest {
    pub limit: i32,
}

impl Default for GroupsRequest {
    fn default() -> (r: Self)
        ensures
            r.limit == DEFAULT_LIST_LIMIT,
    {
        GroupsRequest { limit: default_limit() }
    }
}

impl From<GroupsArgs> for GroupsRequest {
    fn from(args: GroupsArgs) -> (r: Self) {
        GroupsRequest { limit: args.limit }
    }
}

impl vstd::std_specs::convert::FromSpecImpl<GroupsArgs> for GroupsRequest {
    open spec fn obeys_from_spec() -> bool {
        true
    }

    open spec fn from_spec(args: GroupsArgs) -> Self {
        GroupsRequest { limit: args.limit }
    }
}

#[derive(Debug, Clone)]
pub struct UnreadRequest {
    pub limit: i32,
}

impl Default for UnreadRequest {
    fn default() -> (r: Self)
        ensures
            r.limit == DEFAULT_LIST_LIMIT,
    {
        UnreadRequest { limit: default_limit() }
    }
}

impl From<UnreadArgs> for UnreadRequest {
    fn from(args: UnreadArgs) -> (r: Self) {
        UnreadRequest { limit: args.limit }
    }
}

impl vstd::std_specs::convert::FromSpecImpl<UnreadArgs> for UnreadRequest {
    open spec fn obeys_from_spec() -> bool {
        true
    }

    open spec fn from_spec(args: UnreadArgs) -> Self {
        UnreadRequest { limit: args.limit }
    }
}

#[derive(Debug, Clone)]
pub struct SearchRequest {
    pub query: String,
}

impl Default for SearchRequest {
    fn default() -> (r: Self)
        ensures
            r.query@ == Seq::<char>::empty(),
    {
        SearchRequest { query: String::new() }
    }
}

impl From<SearchArgs> for SearchRequest {
    fn from(args: SearchArgs) -> (r: Self) {
        SearchRequest { query: args.query }
    }
}

impl vstd::std_specs::convert::FromSpecImpl<SearchArgs> for SearchRequest {
    open spec fn obeys_from_spec() -> bool {
        true
    }

    open spec fn from_spec(args: SearchArgs) -> Self {
        SearchRequest { query: args.query }
    }
}

#[derive(Debug, Clone, Default)]
pub struct WhoamiRequest {}

/// The chat a request names.
#[derive(Debug)]
pub enum ChatTarget {
    Id(i64),
    Name(String),
}

#[derive(Debug, Clone)]
pub struct MarkUnreadRequest {
    pub name: Option<String>,
    pub id: Option<i64>,
}

impl Default for MarkUnreadRequest {
    fn default() -> (r: Self)
        ensures
            r.name is None,
            r.id is None,
    {
        MarkUnreadRequest { name: None, id: None }
    }
}

impl From<MarkUnreadArgs> for MarkUnreadRequest {
    fn from(args: MarkUnreadArgs) -> (r: Self) {
        MarkUnreadRequest { name: args.name, id: args.id }
    }
}

impl vstd::std_specs::convert::FromSpecImpl<MarkUnreadArgs> for MarkUnreadRequest {
    open spec fn obeys_from_spec() -> bool {
        true
    }

    open spec fn from_spec(args: MarkUnreadArgs) -> Self {
        MarkUnreadRequest { name: args.name, id: args.id }
    }
}

impl MarkUnreadRequest {
    /// The chat to mark: `id` wins over `name`; one of them is required.
    pub fn target(self) -> (r: Result<ChatTarget, TgError>)
        ensures
            match self.id {
                Some(id) => r matches Ok(ChatTarget::Id(x)) && x == id,
                None => match self.name {
                    Some(n) => r matches Ok(ChatTarget::Name(x)) && x@ == n@,
                    None => r matches Err(e) && e@ == ErrorValue::Other(
                        "mark_unread: either `id` or `name` is required"@,
                    ),
                },
            },
    {
        if let Some(id) = self.id {
            Ok(ChatTarget::Id(id))
        } else if let Some(name) = self.name {
            Ok(ChatTarget::Name(name))
        } else {
            Err(TgError::Other(owned("mark_unread: either `id` or `name` is required")))
        }
    }
}

#[derive(Debug, Clone)]
pub struct DownloadRequest {
    pub chat: i64,
    pub message: i64,
    pub output_dir: String,
    pub priority: i32,
}

impl DownloadRequest {
    /// A request for one message's media with the default directory and
    /// priority, as a socket request that names neither gets.
    pub fn with_defaults(chat: i64, message: i64) -> (r: DownloadRequest)
        ensures
            r.chat == chat,
            r.message == message,
            r.output_dir@ == "."@,
            r.priority == DEFAULT_PRIORITY,
    {
        DownloadRequest { chat, message, output_dir: default_output_dir(), priority: default_priority() }
    }
}

impl From<DownloadArgs> for DownloadRequest {
    fn from(args: DownloadArgs) -> (r: Self) {
        DownloadRequest { chat: args.chat, message: args.message, output_dir: args.output_dir, priority: args.priority }
    }
}

impl vstd::std_specs::convert::FromSpecImpl<DownloadArgs> for DownloadRequest {
    open spec fn obeys_from_spec() -> bool {
        true
    }

    open spec fn from_spec(args: DownloadArgs) -> Self {
        DownloadRequest { chat: args.chat, message: args.message, output_dir: args.output_dir, priority: args.priority }
    }
}

/// Where and how urgently a download runs.
#[derive(Debug, Clone)]
pub struct DownloadOptions {
    pub output_dir: String,
    pub priority: i32,
}

impl DownloadRequest {
    /// The options the client is handed for this request.
    pub fn options(self) -> (r: DownloadOptions)
        ensures
            r.output_dir == self.output_dir,
            r.priority == self.priority,
    {
        DownloadOptions { output_dir: self.output_dir, priority: self.priority }
    }
}

} // verus!
