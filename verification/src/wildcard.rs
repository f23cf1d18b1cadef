//! Wildcard patterns for selecting contexts by name.

use vstd::prelude::*;
use wildmatch::WildMatch;

verus! {

/// Whether `pattern` matches the whole of `text`: `?` stands for exactly one
/// character, `*` for any number of characters, none included, and every
/// other character for itself.
pub open spec fn wildcard_matches(pattern: Seq<char>, text: Seq<char>) -> bool
    decreases pattern.len(), text.len(),
{
    if pattern.len() == 0 {
        text.len() == 0
    } else if pattern[0] == '*' {
        wildcard_matches(pattern.drop_first(), text) || (text.len() > 0 && wildcard_matches(
            pattern,
            text.drop_first(),
        ))
    } else {
        text.len() > 0 && (pattern[0] == '?' || pattern[0] == text[0]) && wildcard_matches(
            pattern.drop_first(),
            text.drop_first(),
        )
    }
}

/// `WildMatch::new(pattern).matches(text)`: the case-sensitive match of a
/// whole text against a pattern with the wildcards `*` and `?`, as the
/// crate's documentation defines it.
#[verifier::external_body]
pub(crate) fn wildcard_match(pattern: &str, text: &str) -> (r: bool)
    ensures
        r == wildcard_matches(pattern@, text@),
{
    WildMatch::new(pattern).matches(text)
}

} // verus!
