//! The message-formatting mode carried on `send`. The same two literals travel
//! on the socket (`args.parse_mode`), on the command line (`--parse-mode`) and
//! in the Bot API payload; absent means the body is sent verbatim as plain text.

use vstd::prelude::*;
use crate::error::{ErrorValue, TgError};
use crate::text::{concat2, concat3, str_eq};

verus! {

#[derive(Debug, Clone, Copy, PartialEq, Eq, Structural)]
pub enum ParseMode {
    Html,
    MarkdownV2,
}

/// The wire literal of each mode.
pub open spec fn mode_literal(m: ParseMode) -> Seq<char> {
    match m {
        ParseMode::Html => "HTML"@,
        ParseMode::MarkdownV2 => "MarkdownV2"@,
    }
}

/// The refusal for a value that is not one of the two literals.
pub open spec fn invalid_mode_message(s: Seq<char>) -> Seq<char> {
    "invalid parse_mode '"@ + s + "'. Expected `HTML` or `MarkdownV2`"@
}

/// What `ParseMode::parse` answers for `s`: exactly the two literals, case-sensitive.
pub open spec fn parse_mode_spec(s: Seq<char>) -> Result<ParseMode, ErrorValue> {
    if s == "HTML"@ {
        Ok(ParseMode::Html)
    } else if s == "MarkdownV2"@ {
        Ok(ParseMode::MarkdownV2)
    } else {
        Err(ErrorValue::Other(invalid_mode_message(s)))
    }
}

impl ParseMode {
    /// Strict, case-sensitive: anything but the two literals is refused.
    pub fn parse(s: &str) -> (r: Result<ParseMode, TgError>)
        ensures
            match r {
                Ok(m) => parse_mode_spec(s@) == Ok::<ParseMode, ErrorValue>(m),
                Err(e) => parse_mode_spec(s@) == Err::<ParseMode, ErrorValue>(e@),
            },
    {
        if str_eq(s, "HTML") {
            Ok(ParseMode::Html)
        } else if str_eq(s, "MarkdownV2") {
            Ok(ParseMode::MarkdownV2)
        } else {
            Err(TgError::Other(concat3("invalid parse_mode '", s, "'. Expected `HTML` or `MarkdownV2`")))
        }
    }

    /// The canonical wire literal (also what the Bot API expects).
    pub fn as_str(self) -> (r: &'static str)
        ensures
            r@ == mode_literal(self),
    {
        match self {
            ParseMode::Html => "HTML",
            ParseMode::MarkdownV2 => "MarkdownV2",
        }
    }
}

/// TDLib's refusal of a body's markup. The text is prefixed with the mode
/// (`parse_mode HTML: ...`) so a caller can tell a permanent markup fault,
/// which fails the same way on every retry, from a failed send.
pub fn markup_refused(mode: ParseMode, message: &str) -> (r: TgError)
    ensures
        r@ == ErrorValue::Other("parse_mode "@ + mode_literal(mode) + ": "@ + message@),
{
    let head = concat3("parse_mode ", mode.as_str(), ": ");
    TgError::Other(concat2(head.as_str(), message))
}

/// Law: the literal a mode is written as parses back to that mode, so the
/// socket/CLI side and the Bot API side cannot drift apart.
pub proof fn lemma_parse_as_str_round_trip(m: ParseMode)
    ensures
        parse_mode_spec(mode_literal(m)) == Ok::<ParseMode, ErrorValue>(m),
{
    reveal_strlit("HTML");
    reveal_strlit("MarkdownV2");
    assert("HTML"@.len() != "MarkdownV2"@.len());
}

/// Law: exactly two inputs are accepted, and each parses to the mode whose
/// literal it is.
pub proof fn lemma_parse_accepts_only_literals(s: Seq<char>)
    ensures
        parse_mode_spec(s) is Ok <==> (s == mode_literal(ParseMode::Html) || s == mode_literal(
            ParseMode::MarkdownV2,
        )),
        parse_mode_spec(s) matches Ok(m) ==> mode_literal(m) == s,
{
}

} // verus!
