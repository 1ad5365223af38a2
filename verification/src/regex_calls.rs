//! Calls into the `regex` crate. Each call compiles its pattern and runs one
//! search over plain strings; what the search gives is named, not restated.
use vstd::prelude::*;

verus! {

/// What `Regex::new(pattern)` followed by `is_match(text)` gives:
/// `None` when the pattern does not compile.
pub uninterp spec fn regex_is_match(pattern: Seq<char>, text: Seq<char>) -> Option<bool>;

/// What `Regex::new(pattern)` followed by `find(text)` gives, as the matched text:
/// `None` when the pattern does not compile, `Some(None)` when nothing matches.
pub uninterp spec fn regex_find(pattern: Seq<char>, text: Seq<char>) -> Option<Option<Seq<char>>>;

/// What `Regex::new(pattern)` followed by `replace(text, replacement)` gives
/// (the first match replaced): `None` when the pattern does not compile.
pub uninterp spec fn regex_replace(pattern: Seq<char>, text: Seq<char>, replacement: Seq<char>) -> Option<Seq<char>>;

/// What `Regex::new(pattern)` followed by `replace_all(text, replacement)` gives
/// (every non-overlapping match replaced): `None` when the pattern does not compile.
pub uninterp spec fn regex_replace_all(pattern: Seq<char>, text: Seq<char>, replacement: Seq<char>) -> Option<Seq<char>>;

/// A character that stands for itself inside a bracketed class: an ASCII
/// letter or digit, `.`, `_`, `:` or a space.
pub open spec fn plain_class_char(c: char) -> bool {
    ||| ('a' <= c && c <= 'z')
    ||| ('A' <= c && c <= 'Z')
    ||| ('0' <= c && c <= '9')
    ||| c == '.'
    ||| c == '_'
    ||| c == ':'
    ||| c == ' '
}

/// The members of a pattern that is one bracketed class of literal
/// characters, such as `[-._:]`: each member a plain character, with `-`
/// allowed (as a literal) only first and `:` never first. `None` for any
/// other pattern.
pub open spec fn class_members(pattern: Seq<char>) -> Option<Seq<char>> {
    let m = pattern.subrange(1, pattern.len() - 1);
    if pattern.len() >= 3 && pattern[0] == '[' && pattern[pattern.len() - 1] == ']'
        && m[0] != ':'
        && (forall|i: int| 0 <= i < m.len() ==> plain_class_char(#[trigger] m[i]) || (i == 0 && m[i] == '-'))
    {
        Some(m)
    } else {
        None
    }
}

/// `text` with each character that is one of `members` replaced by `replacement`.
pub open spec fn replace_chars(text: Seq<char>, members: Seq<char>, replacement: Seq<char>) -> Seq<char>
    decreases text.len(),
{
    if text.len() == 0 {
        Seq::empty()
    } else {
        let head = if members.contains(text[0]) {
            replacement
        } else {
            seq![text[0]]
        };
        head + replace_chars(text.drop_first(), members, replacement)
    }
}

/// Compiles `pattern` with `regex::Regex::new` and calls `Regex::is_match`.
/// The contract only ties the result to the arguments through the name `regex_is_match`.
#[verifier::external_body]
pub(crate) fn call_is_match(pattern: &str, text: &str) -> (r: Option<bool>)
    ensures
        r == regex_is_match(pattern@, text@),
{
    match regex::Regex::new(pattern) {
        Ok(re) => Some(re.is_match(text)),
        Err(_) => None,
    }
}

/// Compiles `pattern` with `regex::Regex::new` and calls `Regex::find`,
/// handing back the text of the leftmost-first match.
#[verifier::external_body]
pub(crate) fn call_find(pattern: &str, text: &str) -> (r: Option<Option<String>>)
    ensures
        r.deep_view() == regex_find(pattern@, text@),
{
    match regex::Regex::new(pattern) {
        Ok(re) => Some(re.find(text).map(|m| m.as_str().to_string())),
        Err(_) => None,
    }
}

/// Compiles `pattern` with `regex::Regex::new` and calls `Regex::replace`
/// with `replacement` (where `$` names a capture group, as the crate documents).
#[verifier::external_body]
pub(crate) fn call_replace(pattern: &str, text: &str, replacement: &str) -> (r: Option<String>)
    ensures
        r.deep_view() == regex_replace(pattern@, text@, replacement@),
{
    match regex::Regex::new(pattern) {
        Ok(re) => Some(re.replace(text, replacement).into_owned()),
        Err(_) => None,
    }
}

/// Compiles `pattern` with `regex::Regex::new` and calls `Regex::replace_all`
/// with `replacement` (where `$` names a capture group, as the crate documents).
/// The second clause states the one case the library relies on: a pattern
/// that is a single class of literal characters matches each of those
/// characters on its own, so every occurrence of one is replaced, and a
/// replacement without `$` is inserted as it is.
#[verifier::external_body]
pub(crate) fn call_replace_all(pattern: &str, text: &str, replacement: &str) -> (r: Option<String>)
    ensures
        r.deep_view() == regex_replace_all(pattern@, text@, replacement@),
        class_members(pattern@) matches Some(m) ==> (!replacement@.contains('$') ==> r.deep_view()
            == Some(replace_chars(text@, m, replacement@))),
{
    match regex::Regex::new(pattern) {
        Ok(re) => Some(re.replace_all(text, replacement).into_owned()),
        Err(_) => None,
    }
}

/// Whether `pattern` matches somewhere in `text`; a pattern that does not compile matches nothing.
pub open spec fn pattern_matches(pattern: Seq<char>, text: Seq<char>) -> bool {
    regex_is_match(pattern, text) == Some(true)
}

/// The text of the first match of `pattern` in `text`.
pub open spec fn first_match(pattern: Seq<char>, text: Seq<char>) -> Option<Seq<char>> {
    match regex_find(pattern, text) {
        Some(m) => m,
        None => None,
    }
}

/// `text` with the first match of `pattern` replaced; unchanged when the pattern does not compile.
pub open spec fn replaced_first(pattern: Seq<char>, text: Seq<char>, replacement: Seq<char>) -> Seq<char> {
    match regex_replace(pattern, text, replacement) {
        Some(t) => t,
        None => text,
    }
}

/// `text` with every match of `pattern` replaced; unchanged when the pattern does not compile.
pub open spec fn replaced_all(pattern: Seq<char>, text: Seq<char>, replacement: Seq<char>) -> Seq<char> {
    match regex_replace_all(pattern, text, replacement) {
        Some(t) => t,
        None => text,
    }
}

/// Whether `pattern` matches somewhere in `text`.
pub fn is_match(pattern: &str, text: &str) -> (r: bool)
    ensures
        r == pattern_matches(pattern@, text@),
{
    match call_is_match(pattern, text) {
        Some(b) => b,
        None => false,
    }
}

/// The text of the first match of `pattern` in `text`.
pub fn find_first(pattern: &str, text: &str) -> (r: Option<String>)
    ensures
        r.deep_view() == first_match(pattern@, text@),
{
    match call_find(pattern, text) {
        Some(m) => m,
        None => None,
    }
}

/// `text` with the first match of `pattern` replaced by `replacement`.
pub fn replace_first(pattern: &str, text: &str, replacement: &str) -> (r: String)
    ensures
        r@ == replaced_first(pattern@, text@, replacement@),
{
    match call_replace(pattern, text, replacement) {
        Some(t) => t,
        None => text.to_owned(),
    }
}

/// `text` with every match of `pattern` replaced by `replacement`.
pub fn replace_every(pattern: &str, text: &str, replacement: &str) -> (r: String)
    ensures
        r@ == replaced_all(pattern@, text@, replacement@),
        class_members(pattern@) matches Some(m) ==> (!replacement@.contains('$') ==> r@
            == replace_chars(text@, m, replacement@)),
{
    match call_replace_all(pattern, text, replacement) {
        Some(t) => t,
        None => text.to_owned(),
    }
}

} // verus!
