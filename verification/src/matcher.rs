//! Scoring a tab name against the search term with the skim fuzzy matcher.

use fuzzy_matcher::skim::SkimMatcherV2;
use fuzzy_matcher::FuzzyMatcher;
use vstd::prelude::*;

verus! {

/// The answer of the skim matcher (second version, default configuration)
/// for a candidate and a search term: the score and the offsets, counted in
/// characters of the candidate, that the match consumed; `None` without a
/// match. The scoring weights are the matcher's own.
pub uninterp spec fn skim_match(choice: Seq<char>, pattern: Seq<char>) -> Option<(i64, Seq<usize>)>;

/// The code point of `c`, with the upper-case letters A to Z taken to their
/// lower-case forms.
pub open spec fn ascii_folded(c: char) -> u32 {
    if 'A' <= c && c <= 'Z' {
        (c as u32 + 32) as u32
    } else {
        c as u32
    }
}

/// Whether a character of the candidate answers a character of the term.
pub open spec fn same_char(c: char, p: char, case_sensitive: bool) -> bool {
    if case_sensitive {
        c == p
    } else {
        ascii_folded(c) == ascii_folded(p)
    }
}

/// Whether the term holds one of the letters A to Z. The matcher compares
/// case-sensitively exactly for such terms.
pub open spec fn has_ascii_upper(pattern: Seq<char>) -> bool {
    exists|i: int| 0 <= i < pattern.len() && 'A' <= #[trigger] pattern[i] && pattern[i] <= 'Z'
}

/// Whether the characters of `pattern` occur in `choice` in order, not
/// necessarily side by side.
pub open spec fn found_in_order(choice: Seq<char>, pattern: Seq<char>, case_sensitive: bool) -> bool
    decreases choice.len(),
{
    if pattern.len() == 0 {
        true
    } else if choice.len() == 0 {
        false
    } else if same_char(choice[0], pattern[0], case_sensitive) {
        found_in_order(choice.drop_first(), pattern.drop_first(), case_sensitive)
    } else {
        found_in_order(choice.drop_first(), pattern, case_sensitive)
    }
}

/// Whether a term matches a candidate at all.
pub open spec fn is_match(choice: Seq<char>, pattern: Seq<char>) -> bool {
    found_in_order(choice, pattern, has_ascii_upper(pattern))
}

/// Offsets that rise strictly and stay below `len`.
pub open spec fn ascending_below(indices: Seq<usize>, len: nat) -> bool {
    &&& forall|i: int, j: int| 0 <= i < j < indices.len() ==> indices[i] < indices[j]
    &&& forall|i: int| 0 <= i < indices.len() ==> indices[i] < len
}

/// Calls `SkimMatcherV2::fuzzy_indices` of the fuzzy-matcher crate on a
/// matcher in its default configuration.
///
/// Trusted: the result is the matcher's answer for these two texts and
/// depends on nothing else; it is `Some` exactly when the term's characters
/// are found in the candidate in order (ignoring the case of A to Z unless
/// the term holds an upper-case letter); and the offsets it reports rise
/// strictly and lie inside the candidate.
#[verifier::external_body]
pub(crate) fn fuzzy_indices(choice: &str, pattern: &str) -> (r: Option<(i64, Vec<usize>)>)
    ensures
        match r {
            Some((score, indices)) => skim_match(choice@, pattern@) == Some((score, indices@)),
            None => skim_match(choice@, pattern@) is None,
        },
        r is Some <==> is_match(choice@, pattern@),
        r matches Some((_, indices)) ==> ascending_below(indices@, choice@.len()),
{
    SkimMatcherV2::default().use_cache(true).fuzzy_indices(choice, pattern)
}

} // verus!
