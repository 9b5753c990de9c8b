//! The regular-expression engine, as far as extraction relies on it.
//!
//! Compiling and matching are done by the `regex` crate. Nothing in this
//! module is proved: each function here states what the crate's documentation
//! says of the call it makes, over names that stand for what the engine
//! computes.

use vstd::prelude::*;
use regex::Captures;
use regex::Match;
use regex::Regex;

verus! {

/// A compiled regular expression (`regex::Regex`).
#[verifier::external_type_specification]
#[verifier::external_body]
pub struct ExRegex(Regex);

/// Why a pattern could not be compiled (`regex::Error`).
#[verifier::external_type_specification]
#[verifier::external_body]
pub struct ExRegexError(regex::Error);

/// The capture groups of one match (`regex::Captures`).
#[verifier::external_type_specification]
#[verifier::external_body]
pub struct ExCaptures<'h>(Captures<'h>);

/// One matched span of a text (`regex::Match`).
#[verifier::external_type_specification]
#[verifier::external_body]
pub struct ExMatch<'h>(Match<'h>);

/// Whether `Regex::new` accepts the pattern: it is well formed and what it
/// compiles to stays within the engine's default size limit.
pub uninterp spec fn pattern_compiles(pattern: Seq<char>) -> bool;

/// The pattern text that a compiled regex stands for: what it was compiled
/// from.
pub uninterp spec fn regex_pattern(re: Regex) -> Seq<char>;

/// What the regex compiled from `pattern` finds in `text`: nothing, or the
/// capture groups of the leftmost match. Group 0 is the whole match; a group
/// that took no part in the match is `None`.
pub uninterp spec fn first_match(pattern: Seq<char>, text: Seq<char>) -> Option<
    Seq<Option<Seq<char>>>,
>;

/// The groups that a `Captures` value holds, group 0 first: for each the
/// matched text, or `None` where the group took no part in the match.
pub uninterp spec fn capture_groups(caps: Captures) -> Seq<Option<Seq<char>>>;

/// The part of the searched text that a `Match` spans.
pub uninterp spec fn match_text(m: Match) -> Seq<char>;

/// Calls `Regex::new`. Claims that whether compilation succeeds depends on
/// the pattern text alone, and that the regex which comes back stands for
/// that text.
#[verifier::external_body]
pub(crate) fn compile(pattern: &str) -> (r: Result<Regex, regex::Error>)
    ensures
        r is Ok <==> pattern_compiles(pattern@),
        r matches Ok(re) ==> regex_pattern(re) == pattern@,
{
    Regex::new(pattern)
}

/// Calls `Regex::captures`, which searches for the leftmost match. Claims
/// that the outcome depends only on the text and on the pattern that the
/// regex was compiled from: no match exactly when `first_match` is `None`,
/// else the groups that `first_match` names. This is claimed of a regex that
/// `Regex::new` has built, with the engine's default options; this library
/// makes no other, and hands none in from outside.
#[verifier::external_body]
pub(crate) fn find_captures<'h>(re: &Regex, text: &'h str) -> (r: Option<Captures<'h>>)
    ensures
        r is None <==> first_match(regex_pattern(*re), text@) is None,
        r matches Some(caps) ==> first_match(regex_pattern(*re), text@) == Some(
            capture_groups(caps),
        ),
{
    re.captures(text)
}

/// Calls `Captures::len`: the number of groups of the regex, group 0 and the
/// groups that took no part in the match included.
#[verifier::external_body]
pub(crate) fn group_count(caps: &Captures) -> (n: usize)
    ensures
        n == capture_groups(*caps).len(),
{
    caps.len()
}

/// Calls `Captures::get`: the span of group `i`, or `None` where the regex
/// has no group `i` or the group took no part in the match.
#[verifier::external_body]
pub(crate) fn group_at<'h>(caps: &Captures<'h>, i: usize) -> (r: Option<Match<'h>>)
    ensures
        i >= capture_groups(*caps).len() ==> r is None,
        i < capture_groups(*caps).len() ==> match r {
            Some(m) => capture_groups(*caps)[i as int] == Some(match_text(m)),
            None => capture_groups(*caps)[i as int] is None,
        },
{
    caps.get(i)
}

/// Calls `Match::as_str`: the part of the searched text that matched.
#[verifier::external_body]
pub(crate) fn matched_str<'h>(m: &Match<'h>) -> (s: &'h str)
    ensures
        s@ == match_text(*m),
{
    m.as_str()
}

} // verus!
