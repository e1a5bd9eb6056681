//! `tg auth status`: what is stored locally (API credentials, the user's
//! identity, bots, a TDLib session), and its plain-text rendering. Reading
//! the files happens at the edge; the status is built from what was read.

use vstd::prelude::*;
use crate::credentials::{CredentialsFile, UserIdentity};
use crate::output::PlainText;
use crate::style::{bold, dimmed, green, painted, red};
use crate::text::{concat2, concat3, concat4, concat5, i64_to_string, int_str, owned, usize_to_string};

verus! {

/// A stored bot as the status shows it: never its token.
#[derive(Debug, Clone, PartialEq, Eq)]
pub struct BotSummary {
    pub id: i64,
    pub username: String,
}

#[derive(Debug, Clone, PartialEq, Eq)]
pub struct AuthStatus {
    pub authenticated: bool,
    pub data_dir: String,
    pub session_stored: bool,
    pub api_id: Option<i32>,
    pub user: Option<UserIdentity>,
    pub bots: Vec<BotSummary>,
}

/// The stored API id counts only with a positive id and a non-empty hash.
pub open spec fn stored_api_id(creds: Option<CredentialsFile>) -> Option<i32> {
    match creds {
        Some(c) => if c.api_id > 0 && c.api_hash@.len() > 0 { Some(c.api_id) } else { None },
        None => None,
    }
}

pub open spec fn stored_bots(creds: Option<CredentialsFile>) -> Seq<crate::credentials::BotEntry> {
    match creds {
        Some(c) => c.bots@,
        None => Seq::empty(),
    }
}

/// A TDLib session is stored when its `db` or its `files` directory has an entry.
pub fn session_dir_has_entries(db_has_entries: bool, files_has_entries: bool) -> (r: bool)
    ensures
        r == (db_has_entries || files_has_entries),
{
    db_has_entries || files_has_entries
}

/// The status from the credentials that could be read (`None` when the file
/// is missing or unreadable) and whether a session is stored: authenticated
/// means a session and usable API credentials.
pub fn build_auth_status(data_dir: String, creds: Option<CredentialsFile>, session_stored: bool) -> (r: AuthStatus)
    ensures
        r.data_dir == data_dir,
        r.session_stored == session_stored,
        r.api_id == stored_api_id(creds),
        r.authenticated == (session_stored && stored_api_id(creds) is Some),
        r.user == match creds { Some(c) => c.user, None => None },
        r.bots@.len() == stored_bots(creds).len(),
        forall|i: int| 0 <= i < r.bots@.len() ==> (#[trigger] r.bots@[i]).id == stored_bots(creds)[i].id
            && r.bots@[i].username@ == stored_bots(creds)[i].username@,
{
    match creds {
        Some(c) => {
            let api_id = if c.api_id > 0 && c.api_hash.as_str().unicode_len() > 0 { Some(c.api_id) } else { None };
            let mut bots: Vec<BotSummary> = Vec::new();
            let mut i: usize = 0;
            while i < c.bots.len()
                invariant
                    0 <= i <= c.bots@.len(),
                    bots@.len() == i,
                    forall|k: int| 0 <= k < i ==> (#[trigger] bots@[k]).id == c.bots@[k].id
                        && bots@[k].username@ == c.bots@[k].username@,
                decreases c.bots@.len() - i,
            {
                bots.push(BotSummary { id: c.bots[i].id, username: owned(c.bots[i].username.as_str()) });
                i = i + 1;
            }
            AuthStatus {
                authenticated: session_stored && api_id.is_some(),
                data_dir,
                session_stored,
                api_id,
                user: c.user,
                bots,
            }
        },
        None => AuthStatus {
            authenticated: false,
            data_dir,
            session_stored,
            api_id: None,
            user: None,
            bots: Vec::new(),
        },
    }
}

/// `yes` in green or `no` in red.
pub fn yes_no(b: bool) -> (r: String)
    ensures
        b ==> painted(seq!['3', '2'], "yes"@, r@),
        !b ==> painted(seq!['3', '1'], "no"@, r@),
{
    if b { green("yes") } else { red("no") }
}

/// The user line's value: `@name (id)` or `(id)`.
pub open spec fn user_value(u: UserIdentity) -> Seq<char> {
    match u.username {
        Some(n) => "@"@ + n@ + " ("@ + int_str(u.id as int) + ")"@,
        None => "("@ + int_str(u.id as int) + ")"@,
    }
}

/// One line per bot, each after a newline: `  @name  (id)`.
pub open spec fn bot_lines(bots: Seq<BotSummary>) -> Seq<char>
    decreases bots.len(),
{
    if bots.len() == 0 {
        Seq::empty()
    } else {
        let b = bots.last();
        bot_lines(bots.drop_last()) + "\n  @"@ + b.username@ + "  ("@ + int_str(b.id as int) + ")"@
    }
}

/// The status text, given the styled pieces: each label padded to sixteen
/// columns and followed by its value, the user line only when known, then
/// the bots header and the bots (or `(none)`).
pub open spec fn status_text(
    s: AuthStatus,
    authenticated: Seq<char>,
    session: Seq<char>,
    not_set: Seq<char>,
    header: Seq<char>,
    none: Seq<char>,
) -> Seq<char> {
    "Authenticated:   "@ + authenticated + "\n"@
        + "Data directory:  "@ + s.data_dir@ + "\n"@
        + "Session stored:  "@ + session + "\n"@
        + "API ID:          "@ + match s.api_id { Some(id) => int_str(id as int), None => not_set }
        + match s.user { Some(u) => "\n"@ + "User:            "@ + user_value(u), None => Seq::<char>::empty() }
        + "\n"@ + header
        + if s.bots@.len() == 0 { "\n  "@ + none } else { bot_lines(s.bots@) }
}

impl PlainText for AuthStatus {
    fn to_plain_text(&self) -> (r: String)
        ensures
            exists|a: Seq<char>, ss: Seq<char>, ns: Seq<char>, h: Seq<char>, no: Seq<char>| {
                &&& painted(if self.authenticated { seq!['3', '2'] } else { seq!['3', '1'] },
                    if self.authenticated { "yes"@ } else { "no"@ }, a)
                &&& painted(if self.session_stored { seq!['3', '2'] } else { seq!['3', '1'] },
                    if self.session_stored { "yes"@ } else { "no"@ }, ss)
                &&& painted(seq!['2'], "(not set)"@, ns)
                &&& painted(seq!['1'], "Bots ("@ + int_str(self.bots@.len() as int) + "):"@, h)
                &&& painted(seq!['2'], "(none)"@, no)
                &&& r@ == #[trigger] status_text(*self, a, ss, ns, h, no)
            },
    {
        let auth = yes_no(self.authenticated);
        let sess = yes_no(self.session_stored);
        let not_set = dimmed("(not set)");
        let count = usize_to_string(self.bots.len());
        let head_plain = concat3("Bots (", count.as_str(), "):");
        let header = bold(head_plain.as_str());
        let none = dimmed("(none)");
        let api = match self.api_id {
            Some(id) => i64_to_string(id as i64),
            None => owned(not_set.as_str()),
        };
        let mut out = concat4("Authenticated:   ", auth.as_str(), "\n", "Data directory:  ");
        out = concat4(out.as_str(), self.data_dir.as_str(), "\n", "Session stored:  ");
        out = concat4(out.as_str(), sess.as_str(), "\n", "API ID:          ");
        out = concat2(out.as_str(), api.as_str());
        match &self.user {
            Some(u) => {
                let id = i64_to_string(u.id);
                let value = match &u.username {
                    Some(n) => concat5("@", n.as_str(), " (", id.as_str(), ")"),
                    None => concat3("(", id.as_str(), ")"),
                };
                out = concat4(out.as_str(), "\n", "User:            ", value.as_str());
            },
            None => {},
        }
        out = concat3(out.as_str(), "\n", header.as_str());
        if self.bots.len() == 0 {
            out = concat3(out.as_str(), "\n  ", none.as_str());
        } else {
            let ghost before = out@;
            let mut lines = String::new();
            let mut i: usize = 0;
            while i < self.bots.len()
                invariant
                    0 <= i <= self.bots@.len(),
                    lines@ == bot_lines(self.bots@.take(i as int)),
                decreases self.bots@.len() - i,
            {
                let id = i64_to_string(self.bots[i].id);
                let line = concat5("\n  @", self.bots[i].username.as_str(), "  (", id.as_str(), ")");
                assert(self.bots@.take(i + 1).drop_last() == self.bots@.take(i as int));
                lines = concat2(lines.as_str(), line.as_str());
                i = i + 1;
            }
            assert(self.bots@.take(self.bots@.len() as int) == self.bots@);
            out = concat2(out.as_str(), lines.as_str());
        }
        assert(out@ == status_text(*self, auth@, sess@, not_set@, header@, none@));
        out
    }
}

} // verus!
