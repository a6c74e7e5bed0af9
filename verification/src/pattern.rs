//! Regular expressions, as far as the replies need them.

use vstd::prelude::*;

verus! {

/// The parenthesised six numbers of a `PASV` reply: four for the host, two
/// for the port.
pub const PASV_PATTERN: &'static str = r"\((\d+),(\d+),(\d+),(\d+),(\d+),(\d+)\)";

/// The fourteen digits of an `MDTM` reply: year, month, day, hour, minute and
/// second.
pub const MDTM_PATTERN: &'static str = r"\b(\d{4})(\d{2})(\d{2})(\d{2})(\d{2})(\d{2})\b";

/// The digits that a `SIZE` reply ends with.
pub const SIZE_PATTERN: &'static str = r"\s+(\d+)\s*$";

/// The capture groups of the leftmost match of `pattern` in `text`, as the
/// `regex` crate finds them: the whole match first, then each group in the
/// order of its opening parenthesis, `None` for a group that took no part.
/// `None` in all where `pattern` matches nowhere in `text`, or is no pattern
/// that the crate compiles.
pub uninterp spec fn regex_captures(pattern: Seq<char>, text: Seq<char>) -> Option<
    Seq<Option<Seq<char>>>,
>;

/// Compiles `pattern` with `regex::Regex::new` and searches `text` with
/// `Regex::captures`. Nothing is proved of the search: its result is only
/// given the name [`regex_captures`], so that what the library makes of the
/// groups can be stated exactly.
#[verifier::external_body]
pub(crate) fn captures(pattern: &str, text: &str) -> (found: Option<Vec<Option<String>>>)
    ensures
        found.deep_view() == regex_captures(pattern@, text@),
{
    let re = regex::Regex::new(pattern).ok()?;
    let caps = re.captures(text)?;
    Some(caps.iter().map(|m| m.map(|m| m.as_str().to_owned())).collect())
}

} // verus!
