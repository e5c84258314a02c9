//! Text helpers the routing core leans on.
//!
//! Case folding and the two fixed-pattern extractions are delegated to
//! outside code behind trusted wrappers. Each wrapper's contract states the
//! fixed pattern's behaviour exactly for ASCII text, and only what holds of
//! every input otherwise.

use vstd::prelude::*;

verus! {

/// An ASCII word character, as the `\w` class matches it.
pub open spec fn is_word_char(c: char) -> bool {
    ('a' <= c && c <= 'z') || ('A' <= c && c <= 'Z') || ('0' <= c && c <= '9') || c == '_'
}

/// A character of the trailing component of a path: a word character or `-`.
pub open spec fn is_shell_tail_char(c: char) -> bool {
    is_word_char(c) || c == '-'
}

/// An ASCII character of a rendered version: a word character, `.`, or
/// whitespace.
pub open spec fn is_version_char(c: char) -> bool {
    is_word_char(c) || c == '.' || c == ' ' || c == '\t' || c == '\n' || c == '\r' || c
        == '\u{b}' || c == '\u{c}'
}

/// The length of the longest run of trailing-component characters at the end
/// of the text.
pub open spec fn spec_shell_tail_run(s: Seq<char>) -> int
    decreases s.len(),
{
    if s.len() == 0 {
        0
    } else if is_shell_tail_char(s.last()) {
        1 + spec_shell_tail_run(s.drop_last())
    } else {
        0
    }
}

/// The trailing component of a path: the non-empty run of word or `-`
/// characters at the end of the text, provided a `/` stands just before it.
pub open spec fn spec_shell_tail(s: Seq<char>) -> Option<Seq<char>> {
    let k = spec_shell_tail_run(s);
    if k >= 1 && k + 1 <= s.len() && s[s.len() - k - 1] == '/' {
        Some(s.subrange(s.len() - k, s.len() as int))
    } else {
        None
    }
}

/// The length of the longest run of word characters at the start of the text.
pub open spec fn spec_leading_word_run(s: Seq<char>) -> int
    decreases s.len(),
{
    if s.len() == 0 {
        0
    } else if is_word_char(s.first()) {
        1 + spec_leading_word_run(s.drop_first())
    } else {
        0
    }
}

/// The name part of a rendered `name (version)` pair: the leading word run,
/// provided the rest of the text is ` (`, a non-empty run of version
/// characters, and a closing `)`.
pub open spec fn spec_rendered_name(s: Seq<char>) -> Option<Seq<char>> {
    let a = spec_leading_word_run(s);
    if a >= 1 && s.len() >= a + 4 && s[a] == ' ' && s[a + 1] == '(' && s.last() == ')' && (forall|
        i: int,
    |
        a + 2 <= i < s.len() - 1 ==> is_version_char(s[i])) {
        Some(s.subrange(0, a))
    } else {
        None
    }
}

/// The lower-case form of one ASCII character: letters `A` to `Z` shift to
/// their lower-case counterparts, every other character is unchanged.
pub open spec fn spec_ascii_lower_char(c: char) -> char {
    if 'A' <= c && c <= 'Z' {
        ((c as int) + 32) as char
    } else {
        c
    }
}

/// The lower-case form of ASCII text, character by character.
pub open spec fn spec_ascii_lower(s: Seq<char>) -> Seq<char> {
    Seq::new(s.len(), |i: int| spec_ascii_lower_char(s[i]))
}

/// What `str::to_lowercase` returns for a piece of text. The result depends
/// on the characters alone.
pub uninterp spec fn lower_of(s: Seq<char>) -> Seq<char>;

/// Relies on `str::to_lowercase` for case folding; on ASCII text the fold
/// is exactly the character-wise ASCII one.
#[verifier::external_body]
pub fn lowercase(s: &str) -> (r: String)
    ensures
        r@ == lower_of(s@),
        s@.len() == 0 ==> r@.len() == 0,
        vstd::string::is_ascii(s) ==> r@ == spec_ascii_lower(s@),
{
    s.to_lowercase()
}

/// What `str::trim_end` returns for a piece of text. The result depends on
/// the characters alone.
pub uninterp spec fn trimmed_of(s: Seq<char>) -> Seq<char>;

/// Relies on `str::trim_end` to drop trailing whitespace; the result is a
/// prefix of the text.
#[verifier::external_body]
pub fn trim_end(s: &str) -> (r: String)
    ensures
        r@ == trimmed_of(s@),
        r@.len() <= s@.len(),
        r@ == s@.subrange(0, r@.len() as int),
{
    s.trim_end().to_string()
}

/// Relies on `regex::Regex::captures` with the fixed pattern `/([\w-]+)$` to
/// pull the trailing component out of a path, as a shell path names its
/// program. For ASCII text the pattern has a unique possible match, stated
/// exactly by [`spec_shell_tail`].
#[verifier::external_body]
pub fn shell_tail(s: &str) -> (r: Option<String>)
    ensures
        vstd::string::is_ascii(s) ==> r.deep_view() == spec_shell_tail(s@),
        r is Some ==> r->0@.len() >= 1,
{
    let re = regex::Regex::new(r"/([\w-]+)$").unwrap();
    re.captures(s).and_then(|cap| cap.get(1)).map(|m| m.as_str().to_string())
}

/// Relies on `regex::Regex::captures` with the fixed pattern
/// `^(\w+) \(([\w\.\s]+)\)$` to pull the name out of a `name (version)`
/// rendering. For ASCII text the anchored pattern has a unique possible
/// match, stated exactly by [`spec_rendered_name`].
#[verifier::external_body]
pub fn rendered_name(s: &str) -> (r: Option<String>)
    ensures
        vstd::string::is_ascii(s) ==> r.deep_view() == spec_rendered_name(s@),
        r is Some ==> r->0@.len() >= 1,
{
    let re = regex::Regex::new(r"^(\w+) \(([\w\.\s]+)\)$").unwrap();
    re.captures(s).and_then(|cap| cap.get(1)).map(|m| m.as_str().to_string())
}

} // verus!
