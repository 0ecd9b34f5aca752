//! Text search over projects and issues: the pattern that a query becomes
//! before it reaches the database.

use vstd::prelude::*;
use vstd::string::StringExecFns;

verus! {

/// A character of the Unicode property `White_Space`.
pub open spec fn is_space(c: char) -> bool {
    ||| '\u{9}' <= c && c <= '\u{d}'
    ||| c == ' '
    ||| c == '\u{85}'
    ||| c == '\u{a0}'
    ||| c == '\u{1680}'
    ||| '\u{2000}' <= c && c <= '\u{200a}'
    ||| c == '\u{2028}'
    ||| c == '\u{2029}'
    ||| c == '\u{202f}'
    ||| c == '\u{205f}'
    ||| c == '\u{3000}'
}

/// A text in which nothing is left once white space is trimmed off.
pub open spec fn is_blank_text(text: Seq<char>) -> bool {
    forall|i: int| 0 <= i < text.len() ==> is_space(#[trigger] text[i])
}

/// The pattern that matches every text containing `text`: the text between
/// two percent signs.
pub open spec fn like_pattern_of(text: Seq<char>) -> Seq<char> {
    seq!['%'] + text + seq!['%']
}

/// The pattern of a search: none for a query that is absent or blank, and
/// for any other the query as it was given, untrimmed, between two percent
/// signs.
pub open spec fn search_pattern_of(query: Option<Seq<char>>) -> Option<Seq<char>> {
    match query {
        Some(text) if !is_blank_text(text) => Some(like_pattern_of(text)),
        _ => None,
    }
}

/// The view of a query that may be absent.
pub open spec fn query_view(query: Option<&str>) -> Option<Seq<char>> {
    match query {
        Some(text) => Some(text@),
        None => None,
    }
}

/// Whether a character is white space.
pub fn is_whitespace(c: char) -> (space: bool)
    ensures
        space == is_space(c),
{
    ('\u{9}' <= c && c <= '\u{d}') || c == ' ' || c == '\u{85}' || c == '\u{a0}' || c == '\u{1680}' || (
    '\u{2000}' <= c && c <= '\u{200a}') || c == '\u{2028}' || c == '\u{2029}' || c == '\u{202f}' || c
        == '\u{205f}' || c == '\u{3000}'
}

/// Whether a text is empty once white space is trimmed off.
pub fn is_blank(text: &str) -> (blank: bool)
    ensures
        blank == is_blank_text(text@),
{
    broadcast use vstd::string::group_string_axioms;

    let mut blank = true;
    for c in it: text.chars()
        invariant
            it.seq() == text@,
            blank == (forall|i: int| 0 <= i < it.index() ==> is_space(#[trigger] text@[i])),
    {
        if !is_whitespace(c) {
            blank = false;
        }
    }
    blank
}

/// The pattern that matches every text containing `text`.
pub fn like_pattern(text: &str) -> (pattern: String)
    ensures
        pattern@ == like_pattern_of(text@),
{
    proof {
        reveal_strlit("%");
    }
    let pattern = "%".to_owned().concat(text).concat("%");
    assert(pattern@ =~= like_pattern_of(text@));
    pattern
}

/// The pattern of a search, if the query asks for one.
pub fn search_pattern(query: Option<&str>) -> (pattern: Option<String>)
    ensures
        match search_pattern_of(query_view(query)) {
            Some(wanted) => pattern matches Some(text) && text@ == wanted,
            None => pattern is None,
        },
{
    match query {
        Some(text) => {
            if is_blank(text) {
                None
            } else {
                Some(like_pattern(text))
            }
        },
        None => None,
    }
}

} // verus!
