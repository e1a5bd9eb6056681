use vstd::prelude::*;

pub mod auth_status;
pub mod bot_api;
pub mod chat_list;
pub mod cli;
pub mod cli_flow;
pub mod client_flow;
pub mod content;
pub mod credentials;
pub mod download;
pub mod error;
pub mod extract;
pub mod history;
pub mod layout;
pub mod media;
pub mod messages;
pub mod output;
pub mod parse_mode;
pub mod requests;
pub mod resolve;
pub mod search;
pub mod serve;
pub mod send;
pub mod style;
pub mod sync;
pub mod text;
