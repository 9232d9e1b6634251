use fuzzy_matcher::FuzzyMatcher;
use unicode_truncate::UnicodeTruncateStr;
use vstd::prelude::*;

verus! {

pub open spec fn is_ascii_upper(c: char) -> bool {
    'A' <= c && c <= 'Z'
}

/// Character equality, ignoring ASCII case unless `case_sensitive`.
pub open spec fn chars_match(c: char, p: char, case_sensitive: bool) -> bool {
    if case_sensitive {
        c == p
    } else {
        c == p || (is_ascii_upper(c) && c as int + 32 == p as int) || (is_ascii_upper(p) && p
            as int + 32 == c as int)
    }
}

/// `pattern` occurs in `choice` as a subsequence, characters compared by `chars_match`.
pub open spec fn embeds(pattern: Seq<char>, choice: Seq<char>, case_sensitive: bool) -> bool
    decreases choice.len(),
{
    if pattern.len() == 0 {
        true
    } else if choice.len() == 0 {
        false
    } else if chars_match(choice[0], pattern[0], case_sensitive) {
        embeds(pattern.drop_first(), choice.drop_first(), case_sensitive)
    } else {
        embeds(pattern, choice.drop_first(), case_sensitive)
    }
}

pub open spec fn has_ascii_upper(s: Seq<char>) -> bool {
    exists|i: int| 0 <= i < s.len() && is_ascii_upper(#[trigger] s[i])
}

/// The query's characters occur in order in the name; case is ignored for
/// ASCII letters unless the query holds an ASCII capital.
pub open spec fn fuzzy_accepts(name: Seq<char>, query: Seq<char>) -> bool {
    embeds(query, name, has_ascii_upper(query))
}

/// Score and matched character positions that the skim matcher gives `choice` for `pattern`.
pub uninterp spec fn skim_indices(choice: Seq<char>, pattern: Seq<char>) -> Option<
    (i64, Seq<usize>),
>;

pub open spec fn match_view(r: Option<(i64, Vec<usize>)>) -> Option<(i64, Seq<usize>)> {
    match r {
        Some((score, positions)) => Some((score, positions@)),
        None => None,
    }
}

/// Relies on `fuzzy_matcher::skim::SkimMatcherV2::fuzzy_indices` with the default
/// matcher (smart case): it returns `None` exactly when its first pass finds the
/// pattern's characters not in order in the choice (ASCII case ignored unless the
/// pattern holds an ASCII capital); score and positions depend on the strings alone.
#[verifier::external_body]
pub(crate) fn skim_match(choice: &str, pattern: &str) -> (r: Option<(i64, Vec<usize>)>)
    ensures
        match_view(r) == skim_indices(choice@, pattern@),
        r is Some <==> fuzzy_accepts(choice@, pattern@),
{
    fuzzy_matcher::skim::SkimMatcherV2::default().fuzzy_indices(choice, pattern)
}

/// The longest prefix of `s` whose display width is at most `width` columns.
pub uninterp spec fn width_prefix(s: Seq<char>, width: usize) -> Seq<char>;

/// Relies on `unicode_truncate::UnicodeTruncateStr::unicode_truncate`: it keeps a
/// prefix of `s`, the longest whose display width fits in `width` columns.
#[verifier::external_body]
pub(crate) fn truncate_to_width(s: &str, width: usize) -> (r: String)
    ensures
        r@ == width_prefix(s@, width),
        r@.len() <= s@.len(),
        r@ == s@.subrange(0, r@.len() as int),
{
    s.unicode_truncate(width).0.to_string()
}

} // verus!
