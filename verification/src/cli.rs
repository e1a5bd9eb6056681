//! The command-line arguments of each subcommand, as plain values. The
//! argument parser that fills them lives with the binary.

use vstd::prelude::*;

verus! {

#[derive(Debug)]
pub struct Cli {
    /// Output in JSON format.
    pub json: bool,
    pub command: Command,
}

#[derive(Debug)]
pub enum Command {
    Auth(AuthArgs),
    Send(SendArgs),
    Chats(ChatsArgs),
    Groups(GroupsArgs),
    Unread(UnreadArgs),
    Messages(MessagesArgs),
    Download(DownloadArgs),
    MarkRead(MarkReadArgs),
    MarkUnread(MarkUnreadArgs),
    Search(SearchArgs),
    Whoami,
    Sync(SyncArgs),
    Serve,
}

#[derive(Debug)]
pub enum AuthSubcommand {
    Bot(AuthBotArgs),
    Status,
}

#[derive(Debug)]
pub struct AuthArgs {
    pub subcommand: Option<AuthSubcommand>,
}

#[derive(Debug)]
pub struct AuthBotArgs {
    pub token: Option<String>,
}

#[derive(Debug)]
pub struct SendArgs {
    /// Contact name (required unless `id`, `to` or `group` is given).
    pub name: Option<String>,
    /// Message text; read from stdin when absent.
    pub message: Option<String>,
    pub id: Option<i64>,
    /// `@username`, numeric id, or name.
    pub to: Option<String>,
    pub group: Option<String>,
    /// Send as this bot (`@username` or id) through the Bot API.
    pub send_as: Option<String>,
    /// `HTML` or `MarkdownV2`.
    pub parse_mode: Option<String>,
}

#[derive(Debug)]
pub struct ChatsArgs {
    pub limit: i32,
}

#[derive(Debug)]
pub struct GroupsArgs {
    pub limit: i32,
}

#[derive(Debug)]
pub struct UnreadArgs {
    pub limit: i32,
}

#[derive(Debug)]
pub struct MessagesArgs {
    pub name: Option<String>,
    pub chat: Option<i64>,
    pub limit: i32,
    pub since_utc: Option<String>,
    pub oldest_first: bool,
}

#[derive(Debug)]
pub struct DownloadArgs {
    pub chat: i64,
    pub message: i64,
    pub output_dir: String,
    /// 1-32; higher downloads sooner.
    pub priority: i32,
}

#[derive(Debug)]
pub struct MarkReadArgs {
    pub name: Option<String>,
    pub id: Option<i64>,
}

#[derive(Debug)]
pub struct MarkUnreadArgs {
    pub name: Option<String>,
    pub id: Option<i64>,
}

#[derive(Debug)]
pub struct SearchArgs {
    pub query: String,
}

#[derive(Debug)]
pub struct SyncArgs {
    pub limit: i32,
    pub reconcile_days: Option<u32>,
}

} // verus!
