//! Turning a recipient into a chat id for a bot send: what the stored
//! credentials answer directly, and what must be looked up through TDLib.

use vstd::prelude::*;
use crate::credentials::{CredentialsFile, KnownContact, resolve_username_spec, upsert_spec, contact_with_id};
use crate::error::{ErrorValue, TgError};
use crate::text::{concat3, parse_i64, parse_i64_spec, starts_with_char, strip_char_prefix, strip_prefix_char};

verus! {

/// The recipient form asked for on the command line.
#[derive(Debug)]
pub enum Recipient {
    To(String),
    Id(i64),
    Group(String),
    Name(String),
}

/// What resolving a recipient comes to before any network work.
#[derive(Debug)]
pub enum Resolution {
    /// The chat id is known.
    Resolved(i64),
    /// Search contacts for this name.
    LookupName(String),
    /// Search public chats for this group title.
    LookupGroup(String),
    /// Look this `@username` up through TDLib, then cache it.
    LookupUsername(String),
}

/// What a name given as `to` or `name` resolves to: a stored `@username`
/// resolves locally, an unknown one is looked up, anything else is searched.
pub open spec fn name_resolution(c: CredentialsFile, name: Seq<char>, r: Resolution) -> bool {
    if name.len() > 0 && name[0] == '@' {
        match resolve_username_spec(c, name) {
            Some(id) => r == Resolution::Resolved(id),
            None => r matches Resolution::LookupUsername(u) && u@ == name,
        }
    } else {
        r matches Resolution::LookupName(n) && n@ == name
    }
}

fn resolve_name_locally(name: String, creds: &CredentialsFile) -> (r: Resolution)
    ensures
        name_resolution(*creds, name@, r),
{
    if starts_with_char(name.as_str(), '@') {
        match creds.resolve_username(name.as_str()) {
            Some(id) => Resolution::Resolved(id),
            None => Resolution::LookupUsername(name),
        }
    } else {
        Resolution::LookupName(name)
    }
}

/// Resolve what the stored credentials can: numeric `to` and `id` directly,
/// a stored `@username` from the record; a group is always looked up.
pub fn resolve_locally(recipient: Recipient, creds: &CredentialsFile) -> (r: Resolution)
    ensures
        match recipient {
            Recipient::To(to) => match parse_i64_spec(to@) {
                Some(id) => r == Resolution::Resolved(id),
                None => name_resolution(*creds, to@, r),
            },
            Recipient::Id(id) => r == Resolution::Resolved(id),
            Recipient::Group(g) => r matches Resolution::LookupGroup(x) && x@ == g@,
            Recipient::Name(n) => name_resolution(*creds, n@, r),
        },
{
    match recipient {
        Recipient::To(to) => match parse_i64(to.as_str()) {
            Some(id) => Resolution::Resolved(id),
            None => resolve_name_locally(to, creds),
        },
        Recipient::Id(id) => Resolution::Resolved(id),
        Recipient::Group(g) => Resolution::LookupGroup(g),
        Recipient::Name(n) => resolve_name_locally(n, creds),
    }
}

/// How a lookup is named in the refusal when no API credentials are stored.
pub open spec fn lookup_context_spec(r: Resolution) -> Seq<char> {
    match r {
        Resolution::Resolved(_) => Seq::empty(),
        Resolution::LookupName(n) => "\""@ + n@ + "\""@,
        Resolution::LookupGroup(g) => "group \""@ + g@ + "\""@,
        Resolution::LookupUsername(u) => u@,
    }
}

pub fn lookup_context(r: &Resolution) -> (s: String)
    ensures
        s@ == lookup_context_spec(*r),
{
    match r {
        Resolution::Resolved(_) => String::new(),
        Resolution::LookupName(n) => concat3("\"", n.as_str(), "\""),
        Resolution::LookupGroup(g) => concat3("group \"", g.as_str(), "\""),
        Resolution::LookupUsername(u) => u.clone(),
    }
}

/// The API credentials a TDLib lookup needs; an unset id (0) is refused.
pub fn require_api_credentials(creds: &CredentialsFile, context: &str) -> (r: Result<(i32, String), TgError>)
    ensures
        creds.api_id == 0 ==> (r matches Err(e) && e@ == ErrorValue::Other(
            "Cannot resolve "@ + context@ + ". Run `tg auth` first or use a numeric ID."@,
        )),
        creds.api_id != 0 ==> (r matches Ok((id, hash)) && id == creds.api_id && hash@ == creds.api_hash@),
{
    let api = creds.api_credentials();
    if api.api_id == 0 {
        return Err(TgError::Other(concat3(
            "Cannot resolve ",
            context,
            ". Run `tg auth` first or use a numeric ID.",
        )));
    }
    Ok((api.api_id, api.api_hash))
}

/// Cache a `@username` TDLib resolved, under the name without its `@`.
pub fn cache_resolved_contact(creds: &mut CredentialsFile, username: &str, chat_id: i64)
    ensures
        exists|contact: KnownContact| {
            &&& contact.id == chat_id
            &&& contact.username@ == strip_char_prefix(username@, '@')
            &&& final(creds).known_contacts@ == upsert_spec(old(creds).known_contacts@, contact_with_id(chat_id), contact)
        },
        final(creds).bots == old(creds).bots,
        final(creds).user == old(creds).user,
        final(creds).api_id == old(creds).api_id,
        final(creds).api_hash == old(creds).api_hash,
{
    let needle = strip_prefix_char(username, '@');
    let contact = KnownContact { id: chat_id, username: needle };
    let ghost c = contact;
    creds.upsert_known_contact(contact);
    assert(c.id == chat_id && c.username@ == strip_char_prefix(username@, '@'));
}

} // verus!
