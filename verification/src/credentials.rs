//! The on-disk credentials record (API id/hash, the user's identity, bots and
//! cached contacts) and the lookups made against it. Reading and writing the
//! file, and reading the environment, happen at the edge; the choices made
//! from what was read are here.

use vstd::prelude::*;
use crate::error::{ErrorValue, TgError};
use crate::search::{first_index, lemma_first_index_found, lemma_first_index_none};
use crate::text::{
    concat2, concat3, eq_ignore_ascii_case, eq_ignore_ascii_case_spec, owned, parse_i32,
    parse_i32_spec, strip_char_prefix, strip_prefix_char,
};

verus! {

/// File name of the credentials record inside the data directory.
pub const CREDENTIALS_FILE: &'static str = "credentials.json";

#[derive(Debug, Clone, PartialEq, Eq)]
pub struct ApiCredentials {
    pub api_id: i32,
    pub api_hash: String,
}

#[derive(Debug, Clone, PartialEq, Eq)]
pub struct UserIdentity {
    pub id: i64,
    pub username: Option<String>,
}

#[derive(Debug, Clone, PartialEq, Eq)]
pub struct BotEntry {
    pub id: i64,
    pub username: String,
    pub token: String,
}

#[derive(Debug, Clone, PartialEq, Eq)]
pub struct KnownContact {
    pub id: i64,
    pub username: String,
}

/// Full credentials record. `user`, `bots` and `known_contacts` are optional on disk.
#[derive(Debug, Clone, PartialEq, Eq)]
pub struct CredentialsFile {
    pub api_id: i32,
    pub api_hash: String,
    pub user: Option<UserIdentity>,
    pub bots: Vec<BotEntry>,
    pub known_contacts: Vec<KnownContact>,
}

/// Where the API credentials came from.
#[derive(Debug, Clone, Copy, PartialEq, Eq, Structural)]
pub enum CredentialSource {
    Env,
    Stored,
}

/// A bot matches a lookup name when the usernames agree up to ASCII case.
pub open spec fn bot_named(needle: Seq<char>) -> spec_fn(BotEntry) -> bool {
    |b: BotEntry| eq_ignore_ascii_case_spec(b.username@, needle)
}

pub open spec fn bot_with_id(id: i64) -> spec_fn(BotEntry) -> bool {
    |b: BotEntry| b.id == id
}

pub open spec fn contact_named(needle: Seq<char>) -> spec_fn(KnownContact) -> bool {
    |c: KnownContact| eq_ignore_ascii_case_spec(c.username@, needle)
}

pub open spec fn contact_with_id(id: i64) -> spec_fn(KnownContact) -> bool {
    |c: KnownContact| c.id == id
}

/// The user's own record answers for `needle`.
pub open spec fn user_named(user: Option<UserIdentity>, needle: Seq<char>) -> bool {
    match user {
        Some(u) => match u.username {
            Some(name) => eq_ignore_ascii_case_spec(name@, needle),
            None => false,
        },
        None => false,
    }
}

/// What `resolve_username` answers for `username`: the user first, then the
/// first matching bot, then the first matching cached contact. One leading
/// `@` is dropped; the bot lookup, like `find_bot_by_username`, drops one
/// more.
pub open spec fn resolve_username_spec(c: CredentialsFile, username: Seq<char>) -> Option<i64> {
    let needle = strip_char_prefix(username, '@');
    if user_named(c.user, needle) {
        Some(c.user->Some_0.id)
    } else {
        match first_index(c.bots@, bot_named(strip_char_prefix(needle, '@'))) {
            Some(i) => Some(c.bots@[i].id),
            None => match first_index(c.known_contacts@, contact_named(needle)) {
                Some(i) => Some(c.known_contacts@[i].id),
                None => None,
            },
        }
    }
}

/// `s` with `x` written over its first element satisfying `p`, or appended.
pub open spec fn upsert_spec<T>(s: Seq<T>, p: spec_fn(T) -> bool, x: T) -> Seq<T> {
    match first_index(s, p) {
        Some(i) => s.update(i, x),
        None => s.push(x),
    }
}

impl CredentialsFile {
    pub fn api_credentials(&self) -> (r: ApiCredentials)
        ensures
            r.api_id == self.api_id,
            r.api_hash@ == self.api_hash@,
    {
        ApiCredentials { api_id: self.api_id, api_hash: self.api_hash.clone() }
    }

    fn bot_index_by_name(&self, needle: &str) -> (r: Option<usize>)
        ensures
            match r {
                Some(i) => i < self.bots@.len() && first_index(self.bots@, bot_named(needle@)) == Some(i as int),
                None => first_index(self.bots@, bot_named(needle@)) is None,
            },
    {
        let mut i: usize = 0;
        while i < self.bots.len()
            invariant
                0 <= i <= self.bots@.len(),
                forall|k: int| 0 <= k < i ==> !#[trigger] bot_named(needle@)(self.bots@[k]),
            decreases self.bots@.len() - i,
        {
            if eq_ignore_ascii_case(self.bots[i].username.as_str(), needle) {
                proof {
                    lemma_first_index_found(self.bots@, bot_named(needle@), i as int);
                }
                return Some(i);
            }
            i = i + 1;
        }
        proof {
            lemma_first_index_none(self.bots@, bot_named(needle@));
        }
        None
    }

    /// The first bot whose username equals `username` up to ASCII case, a
    /// leading `@` being ignored.
    pub fn find_bot_by_username(&self, username: &str) -> (r: Option<&BotEntry>)
        ensures
            match first_index(self.bots@, bot_named(strip_char_prefix(username@, '@'))) {
                Some(i) => r == Some(&self.bots@[i]),
                None => r is None,
            },
    {
        let needle = strip_prefix_char(username, '@');
        match self.bot_index_by_name(needle.as_str()) {
            Some(i) => Some(&self.bots[i]),
            None => None,
        }
    }

    /// The first bot with this id.
    pub fn find_bot_by_id(&self, id: i64) -> (r: Option<&BotEntry>)
        ensures
            match first_index(self.bots@, bot_with_id(id)) {
                Some(i) => r == Some(&self.bots@[i]),
                None => r is None,
            },
    {
        let mut i: usize = 0;
        while i < self.bots.len()
            invariant
                0 <= i <= self.bots@.len(),
                forall|k: int| 0 <= k < i ==> !#[trigger] bot_with_id(id)(self.bots@[k]),
            decreases self.bots@.len() - i,
        {
            if self.bots[i].id == id {
                proof {
                    lemma_first_index_found(self.bots@, bot_with_id(id), i as int);
                }
                return Some(&self.bots[i]);
            }
            i = i + 1;
        }
        proof {
            lemma_first_index_none(self.bots@, bot_with_id(id));
        }
        None
    }

    /// Replace the bot with the same id, or add it.
    pub fn upsert_bot(&mut self, bot: BotEntry)
        ensures
            final(self).bots@ == upsert_spec(old(self).bots@, bot_with_id(bot.id), bot),
            final(self).api_id == old(self).api_id,
            final(self).api_hash == old(self).api_hash,
            final(self).user == old(self).user,
            final(self).known_contacts == old(self).known_contacts,
    {
        let mut i: usize = 0;
        while i < self.bots.len()
            invariant
                self.bots == old(self).bots,
                self.api_id == old(self).api_id,
                self.api_hash == old(self).api_hash,
                self.user == old(self).user,
                self.known_contacts == old(self).known_contacts,
                0 <= i <= self.bots@.len(),
                forall|k: int| 0 <= k < i ==> !#[trigger] bot_with_id(bot.id)(self.bots@[k]),
            decreases self.bots@.len() - i,
        {
            if self.bots[i].id == bot.id {
                proof {
                    lemma_first_index_found(self.bots@, bot_with_id(bot.id), i as int);
                }
                self.bots.set(i, bot);
                return;
            }
            i = i + 1;
        }
        proof {
            lemma_first_index_none(self.bots@, bot_with_id(bot.id));
        }
        self.bots.push(bot);
    }

    /// Resolve a `@username` to a chat id from what is stored: the user's own
    /// record, then bots, then cached contacts (ASCII case-insensitive).
    pub fn resolve_username(&self, username: &str) -> (r: Option<i64>)
        ensures
            r == resolve_username_spec(*self, username@),
    {
        let needle = strip_prefix_char(username, '@');
        match &self.user {
            Some(u) => match &u.username {
                Some(name) => {
                    if eq_ignore_ascii_case(name.as_str(), needle.as_str()) {
                        return Some(u.id);
                    }
                },
                None => {},
            },
            None => {},
        }
        match self.find_bot_by_username(needle.as_str()) {
            Some(b) => return Some(b.id),
            None => {},
        }
        let mut i: usize = 0;
        while i < self.known_contacts.len()
            invariant
                needle@ == strip_char_prefix(username@, '@'),
                !user_named(self.user, needle@),
                first_index(self.bots@, bot_named(strip_char_prefix(needle@, '@'))) is None,
                0 <= i <= self.known_contacts@.len(),
                forall|k: int|
                    0 <= k < i ==> !#[trigger] contact_named(needle@)(self.known_contacts@[k]),
            decreases self.known_contacts@.len() - i,
        {
            if eq_ignore_ascii_case(self.known_contacts[i].username.as_str(), needle.as_str()) {
                proof {
                    lemma_first_index_found(self.known_contacts@, contact_named(needle@), i as int);
                }
                return Some(self.known_contacts[i].id);
            }
            i = i + 1;
        }
        proof {
            lemma_first_index_none(self.known_contacts@, contact_named(needle@));
        }
        None
    }

    /// Replace the cached contact with the same id, or add it.
    pub fn upsert_known_contact(&mut self, contact: KnownContact)
        ensures
            final(self).known_contacts@ == upsert_spec(
                old(self).known_contacts@,
                contact_with_id(contact.id),
                contact,
            ),
            final(self).api_id == old(self).api_id,
            final(self).api_hash == old(self).api_hash,
            final(self).user == old(self).user,
            final(self).bots == old(self).bots,
    {
        let mut i: usize = 0;
        while i < self.known_contacts.len()
            invariant
                self.known_contacts == old(self).known_contacts,
                self.api_id == old(self).api_id,
                self.api_hash == old(self).api_hash,
                self.user == old(self).user,
                self.bots == old(self).bots,
                0 <= i <= self.known_contacts@.len(),
                forall|k: int|
                    0 <= k < i ==> !#[trigger] contact_with_id(contact.id)(self.known_contacts@[k]),
            decreases self.known_contacts@.len() - i,
        {
            if self.known_contacts[i].id == contact.id {
                proof {
                    lemma_first_index_found(self.known_contacts@, contact_with_id(contact.id), i as int);
                }
                self.known_contacts.set(i, contact);
                return;
            }
            i = i + 1;
        }
        proof {
            lemma_first_index_none(self.known_contacts@, contact_with_id(contact.id));
        }
        self.known_contacts.push(contact);
    }
}


/// `Path::new(dir).join(name)` for a relative, non-empty `name`: the name
/// alone under an empty directory, otherwise separated from the directory by
/// exactly the one `/` it may already end with.
pub open spec fn join_spec(dir: Seq<char>, name: Seq<char>) -> Seq<char> {
    if dir.len() == 0 {
        name
    } else if dir.last() == '/' {
        dir + name
    } else {
        dir + seq!['/'] + name
    }
}

/// Joins a relative file name onto a directory path.
pub fn join_path(dir: &str, name: &str) -> (r: String)
    ensures
        r@ == join_spec(dir@, name@),
{
    let v = crate::text::chars_of(dir);
    if v.len() == 0 {
        owned(name)
    } else if v[v.len() - 1] == '/' {
        concat2(dir, name)
    } else {
        proof {
            reveal_strlit("/");
        }
        let r = concat3(dir, "/", name);
        assert(r@ =~= dir@ + seq!['/'] + name@);
        r
    }
}

/// Location of the credentials record inside `data_dir`.
pub fn credentials_file_path(data_dir: &str) -> (r: String)
    ensures
        r@ == join_spec(data_dir@, "credentials.json"@),
{
    join_path(data_dir, CREDENTIALS_FILE)
}

/// What `parse_env_credentials` answers for the two environment values.
pub open spec fn env_credentials_spec(api_id: Option<Seq<char>>, api_hash: Option<Seq<char>>) -> Result<
    Option<(i32, Seq<char>)>,
    ErrorValue,
> {
    if api_id is None && api_hash is None {
        Ok(None)
    } else if api_id is None {
        Err(ErrorValue::EnvVarMissing("TG_API_ID"@))
    } else if api_hash is None {
        Err(ErrorValue::EnvVarMissing("TG_API_HASH"@))
    } else {
        match parse_i32_spec(api_id->Some_0) {
            Some(id) => Ok(Some((id, api_hash->Some_0))),
            None => Err(ErrorValue::Other("TG_API_ID must be a number"@)),
        }
    }
}

/// Credentials from `TG_API_ID`/`TG_API_HASH`: none when both are unset,
/// an error when only one is set or the id is not a number.
pub fn parse_env_credentials(api_id_env: Option<String>, api_hash_env: Option<String>) -> (r: Result<
    Option<ApiCredentials>,
    TgError,
>)
    ensures
        match (r, env_credentials_spec(crate::media::opt_view(api_id_env), crate::media::opt_view(api_hash_env))) {
            (Ok(None), Ok(None)) => true,
            (Ok(Some(c)), Ok(Some((id, hash)))) => c.api_id == id && c.api_hash@ == hash,
            (Err(e), Err(ev)) => e@ == ev,
            _ => false,
        },
{
    if api_id_env.is_none() && api_hash_env.is_none() {
        return Ok(None);
    }
    let api_id_raw = match api_id_env {
        Some(v) => v,
        None => return Err(TgError::EnvVarMissing(owned("TG_API_ID"))),
    };
    let api_hash = match api_hash_env {
        Some(v) => v,
        None => return Err(TgError::EnvVarMissing(owned("TG_API_HASH"))),
    };
    match parse_i32(api_id_raw.as_str()) {
        Some(api_id) => Ok(Some(ApiCredentials { api_id, api_hash })),
        None => Err(TgError::Other(owned("TG_API_ID must be a number"))),
    }
}

/// API credentials for `tg auth`: the environment wins when it names them,
/// otherwise the stored record is used; an environment error is reported as is.
pub fn load_credentials_for_auth(
    env: Result<Option<ApiCredentials>, TgError>,
    stored: Result<CredentialsFile, TgError>,
) -> (r: Result<(ApiCredentials, CredentialSource), TgError>)
    ensures
        match env {
            Err(e) => r == Err::<(ApiCredentials, CredentialSource), TgError>(e),
            Ok(Some(c)) => r == Ok::<(ApiCredentials, CredentialSource), TgError>((c, CredentialSource::Env)),
            Ok(None) => match stored {
                Err(e) => r == Err::<(ApiCredentials, CredentialSource), TgError>(e),
                Ok(f) => r matches Ok((c, src)) && src == CredentialSource::Stored
                    && c.api_id == f.api_id && c.api_hash@ == f.api_hash@,
            },
        },
{
    match env {
        Err(e) => Err(e),
        Ok(Some(c)) => Ok((c, CredentialSource::Env)),
        Ok(None) => match stored {
            Err(e) => Err(e),
            Ok(f) => Ok((f.api_credentials(), CredentialSource::Stored)),
        },
    }
}

/// API credentials for every other command: only the stored record counts.
pub fn load_credentials_for_non_auth(stored: Result<CredentialsFile, TgError>) -> (r: Result<
    ApiCredentials,
    TgError,
>)
    ensures
        match stored {
            Err(e) => r == Err::<ApiCredentials, TgError>(e),
            Ok(f) => r matches Ok(c) && c.api_id == f.api_id && c.api_hash@ == f.api_hash@,
        },
{
    match stored {
        Err(e) => Err(e),
        Ok(f) => Ok(f.api_credentials()),
    }
}

/// `load_credentials_for_auth`, with any failure read as "nothing usable".
pub fn try_load_credentials_for_auth(
    env: Result<Option<ApiCredentials>, TgError>,
    stored: Result<CredentialsFile, TgError>,
) -> (r: Option<(ApiCredentials, CredentialSource)>)
    ensures
        match env {
            Err(_) => r is None,
            Ok(Some(c)) => r == Some((c, CredentialSource::Env)),
            Ok(None) => match stored {
                Err(_) => r is None,
                Ok(f) => r matches Some((c, src)) && src == CredentialSource::Stored
                    && c.api_id == f.api_id && c.api_hash@ == f.api_hash@,
            },
        },
{
    match load_credentials_for_auth(env, stored) {
        Ok(v) => Some(v),
        Err(_) => None,
    }
}

/// The record to write when saving API credentials: the existing record with
/// its id and hash replaced (bots, contacts and identity kept), or a fresh
/// record when none could be read.
pub fn save_credentials(credentials: &ApiCredentials, existing: Result<CredentialsFile, TgError>) -> (r:
    CredentialsFile)
    ensures
        r.api_id == credentials.api_id,
        r.api_hash@ == credentials.api_hash@,
        match existing {
            Ok(f) => r.user == f.user && r.bots == f.bots && r.known_contacts == f.known_contacts,
            Err(_) => r.user is None && r.bots@.len() == 0 && r.known_contacts@.len() == 0,
        },
{
    let mut f = match existing {
        Ok(f) => f,
        Err(_) => CredentialsFile {
            api_id: credentials.api_id,
            api_hash: credentials.api_hash.clone(),
            user: None,
            bots: Vec::new(),
            known_contacts: Vec::new(),
        },
    };
    f.api_id = credentials.api_id;
    f.api_hash = credentials.api_hash.clone();
    f
}

/// The refusal when no record exists at `path`.
pub fn credentials_not_found(path: &str) -> (r: TgError)
    ensures
        r@ == ErrorValue::Other("API credentials not found at "@ + path@ + ". Run `tg auth` first."@),
{
    TgError::Other(concat3("API credentials not found at ", path, ". Run `tg auth` first."))
}

/// The refusal when the record at `path` does not parse.
pub fn credentials_unparsable(path: &str, cause: &str) -> (r: TgError)
    ensures
        r@ == ErrorValue::Other("Failed to parse credentials at "@ + path@ + ": "@ + cause@),
{
    let head = concat3("Failed to parse credentials at ", path, ": ");
    TgError::Other(concat2(head.as_str(), cause))
}

/// Law: after an upsert, a lookup by the same id finds exactly what was upserted,
/// and the collection grew only if the id was new.
pub proof fn lemma_upsert_bot_then_find(bots: Seq<BotEntry>, bot: BotEntry)
    ensures
        ({
            let after = upsert_spec(bots, bot_with_id(bot.id), bot);
            &&& first_index(after, bot_with_id(bot.id)) matches Some(i) && after[i] == bot
            &&& after.len() == if first_index(bots, bot_with_id(bot.id)) is Some { bots.len() } else { bots.len() + 1 }
        }),
{
    crate::search::lemma_first_index_props(bots, bot_with_id(bot.id));
    let after = upsert_spec(bots, bot_with_id(bot.id), bot);
    match first_index(bots, bot_with_id(bot.id)) {
        Some(i) => {
            assert forall|k: int| 0 <= k < i implies !#[trigger] bot_with_id(bot.id)(after[k]) by {
                assert(after[k] == bots[k]);
            }
            lemma_first_index_found(after, bot_with_id(bot.id), i);
        },
        None => {
            assert forall|k: int| 0 <= k < bots.len() implies !#[trigger] bot_with_id(bot.id)(after[k]) by {
                assert(after[k] == bots[k]);
            }
            lemma_first_index_found(after, bot_with_id(bot.id), bots.len() as int);
        },
    }
}

/// Law: the same for cached contacts.
pub proof fn lemma_upsert_contact_then_find(contacts: Seq<KnownContact>, contact: KnownContact)
    ensures
        ({
            let after = upsert_spec(contacts, contact_with_id(contact.id), contact);
            &&& first_index(after, contact_with_id(contact.id)) matches Some(i) && after[i] == contact
            &&& after.len() == if first_index(contacts, contact_with_id(contact.id)) is Some { contacts.len() } else { contacts.len() + 1 }
        }),
{
    crate::search::lemma_first_index_props(contacts, contact_with_id(contact.id));
    let after = upsert_spec(contacts, contact_with_id(contact.id), contact);
    match first_index(contacts, contact_with_id(contact.id)) {
        Some(i) => {
            assert forall|k: int| 0 <= k < i implies !#[trigger] contact_with_id(contact.id)(after[k]) by {
                assert(after[k] == contacts[k]);
            }
            lemma_first_index_found(after, contact_with_id(contact.id), i);
        },
        None => {
            assert forall|k: int| 0 <= k < contacts.len() implies !#[trigger] contact_with_id(contact.id)(after[k]) by {
                assert(after[k] == contacts[k]);
            }
            lemma_first_index_found(after, contact_with_id(contact.id), contacts.len() as int);
        },
    }
}

/// Law: a username is resolved from the stored record only when something in
/// it answers to that name, and the id returned is that record's.
pub proof fn lemma_resolve_username_sound(c: CredentialsFile, username: Seq<char>)
    ensures
        resolve_username_spec(c, username) matches Some(id) ==> {
            let needle = strip_char_prefix(username, '@');
            ||| (user_named(c.user, needle) && c.user->Some_0.id == id)
            ||| (exists|i: int| 0 <= i < c.bots@.len() && #[trigger] c.bots@[i].id == id
                && bot_named(strip_char_prefix(needle, '@'))(c.bots@[i]))
            ||| (exists|i: int| 0 <= i < c.known_contacts@.len() && #[trigger] c.known_contacts@[i].id == id && contact_named(needle)(c.known_contacts@[i]))
        },
{
    let needle = strip_char_prefix(username, '@');
    crate::search::lemma_first_index_props(c.bots@, bot_named(strip_char_prefix(needle, '@')));
    crate::search::lemma_first_index_props(c.known_contacts@, contact_named(needle));
}

} // verus!
