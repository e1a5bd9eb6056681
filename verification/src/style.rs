//! Terminal styling through `colored`. Whether escape codes are emitted
//! depends on the environment (`NO_COLOR`, `CLICOLOR`, whether stdout is a
//! terminal), so each styled string is one of two things: the text itself, or
//! the text wrapped in the style's SGR sequence and a reset.

use vstd::prelude::*;
use colored::Colorize;

verus! {

/// The text holds no ESC character, so no inner reset sequence needs escaping.
pub open spec fn no_esc(s: Seq<char>) -> bool {
    forall|i: int| 0 <= i < s.len() ==> s[i] != '\u{1b}'
}

/// `ESC [ code m`.
pub open spec fn sgr(code: Seq<char>) -> Seq<char> {
    seq!['\u{1b}', '['] + code + seq!['m']
}

/// `ESC [ 0 m`.
pub open spec fn sgr_reset() -> Seq<char> {
    seq!['\u{1b}', '[', '0', 'm']
}

/// `r` is `s` rendered with the style `code`, colored or not.
pub open spec fn painted(code: Seq<char>, s: Seq<char>, r: Seq<char>) -> bool {
    no_esc(s) ==> (r == s || r == sgr(code) + s + sgr_reset())
}

/// `s.green().to_string()`.
#[verifier::external_body]
pub(crate) fn green(s: &str) -> (r: String)
    ensures
        painted(seq!['3', '2'], s@, r@),
{
    s.green().to_string()
}

/// `s.yellow().to_string()`.
#[verifier::external_body]
pub(crate) fn yellow(s: &str) -> (r: String)
    ensures
        painted(seq!['3', '3'], s@, r@),
{
    s.yellow().to_string()
}

/// `s.red().to_string()`.
#[verifier::external_body]
pub(crate) fn red(s: &str) -> (r: String)
    ensures
        painted(seq!['3', '1'], s@, r@),
{
    s.red().to_string()
}

/// `s.blue().to_string()`.
#[verifier::external_body]
pub(crate) fn blue(s: &str) -> (r: String)
    ensures
        painted(seq!['3', '4'], s@, r@),
{
    s.blue().to_string()
}

/// `s.bold().to_string()`.
#[verifier::external_body]
pub(crate) fn bold(s: &str) -> (r: String)
    ensures
        painted(seq!['1'], s@, r@),
{
    s.bold().to_string()
}

/// `s.dimmed().to_string()`.
#[verifier::external_body]
pub(crate) fn dimmed(s: &str) -> (r: String)
    ensures
        painted(seq!['2'], s@, r@),
{
    s.dimmed().to_string()
}

} // verus!
