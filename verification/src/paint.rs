//! Terminal colours, taken from the `colored` crate.
//!
//! Whether `colored` adds escape sequences to a text depends on the
//! environment and on whether standard output is a terminal. What holds
//! either way is stated here: a text that holds no escape character comes
//! back whole, with at most something before and after it.

use vstd::prelude::*;
use colored::Colorize;

verus! {

/// A text between two others.
pub open spec fn framed(before: Seq<char>, text: Seq<char>, after: Seq<char>) -> Seq<char> {
    before + text + after
}

/// `shown` is a way of showing `text`: where the text holds no escape
/// character, it stands in `shown` unchanged, between a start and an end
/// that may both be empty. Of a text with an escape character nothing is
/// said.
pub open spec fn shows(shown: Seq<char>, text: Seq<char>) -> bool {
    !text.contains('\u{1b}') ==> exists|before: Seq<char>, after: Seq<char>|
        shown == #[trigger] framed(before, text, after)
}

/// A text as it stands is a way of showing it.
pub proof fn shows_itself(text: Seq<char>)
    ensures
        shows(text, text),
{
    assert(text =~= framed(Seq::<char>::empty(), text, Seq::<char>::empty()));
}

/// `colored::Colorize::red` on a `&str`, written out with `to_string`.
/// Claimed: the result is the text itself or the text between a style
/// sequence and a reset sequence, provided the text holds no escape
/// character; `colored` rewrites only texts that hold a reset sequence.
#[verifier::external_body]
pub(crate) fn red(text: &str) -> (shown: String)
    ensures
        shows(shown@, text@),
{
    text.red().to_string()
}

/// `colored::Colorize::green` on a `&str`, written out with `to_string`.
/// The claim is that of `red`.
#[verifier::external_body]
pub(crate) fn green(text: &str) -> (shown: String)
    ensures
        shows(shown@, text@),
{
    text.green().to_string()
}

/// `colored::Colorize::yellow` on a `&str`, written out with `to_string`.
/// The claim is that of `red`.
#[verifier::external_body]
pub(crate) fn yellow(text: &str) -> (shown: String)
    ensures
        shows(shown@, text@),
{
    text.yellow().to_string()
}

/// `colored::Colorize::blue` on a `&str`, written out with `to_string`.
/// The claim is that of `red`.
#[verifier::external_body]
pub(crate) fn blue(text: &str) -> (shown: String)
    ensures
        shows(shown@, text@),
{
    text.blue().to_string()
}

/// `colored::Colorize::magenta` on a `&str`, written out with `to_string`.
/// The claim is that of `red`.
#[verifier::external_body]
pub(crate) fn magenta(text: &str) -> (shown: String)
    ensures
        shows(shown@, text@),
{
    text.magenta().to_string()
}

/// `colored::Colorize::cyan` on a `&str`, written out with `to_string`.
/// The claim is that of `red`.
#[verifier::external_body]
pub(crate) fn cyan(text: &str) -> (shown: String)
    ensures
        shows(shown@, text@),
{
    text.cyan().to_string()
}

} // verus!
