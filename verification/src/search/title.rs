//! Torrent titles: how a title is normalised, how the movie name and year are
//! read out of it, and when a torrent's title names a given movie.
use vstd::prelude::*;
use vstd::utf8::encode_utf8;
use crate::distance_calls::{call_levenshtein, levenshtein};
use crate::regex_calls::{class_members, find_first, first_match, replace_chars, replace_every, replace_first, replaced_all, replaced_first};
use crate::text::{ascii_lower_seq, ascii_only, push_all, retain_ascii, str_trim, to_ascii_lowercase, trim, trim_end, trim_start};

verus! {

pub const MULTIPLE_SPACES: &'static str = r"\s{2,}";
pub const REMOVE_AFTER_YEAR: &'static str = r"\W*(19|20)\d\d\D.*";
pub const REMOVE_TAGS: &'static str = r"\[.*\]|\(.*\)";
pub const YEAR: &'static str = r"(19|20)\d\d";
pub const SITE: &'static str = r"(www\.)?\w+\.(com|me|to)";
pub const BOUNDARIES: &'static str = r"[-._:]";

/// A title reduced to its ASCII characters, lower-cased, with each run of two
/// or more whitespace characters made one space, and trimmed.
pub open spec fn normalized(title: Seq<char>) -> Seq<char> {
    trim(replaced_all(MULTIPLE_SPACES@, ascii_lower_seq(ascii_only(title)), " "@))
}

/// Normalises a title: drops non-ASCII characters, lower-cases, collapses
/// whitespace runs and trims.
pub fn normalize_title(title: &str) -> (r: String)
    ensures
        r@ == normalized(title@),
{
    let t = retain_ascii(title);
    let t = to_ascii_lowercase(t.as_str());
    let t = replace_every(MULTIPLE_SPACES, t.as_str(), " ");
    str_trim(t.as_str())
}

/// The movie name of a normalised title: everything from the year on, tags in
/// brackets, site names and word boundaries removed, then trimmed.
pub open spec fn movie_name(t: Seq<char>) -> Seq<char> {
    let t = replaced_first(REMOVE_AFTER_YEAR@, t, ""@);
    let t = replaced_all(REMOVE_TAGS@, t, ""@);
    let t = replaced_all(SITE@, t, ""@);
    let t = replaced_all(BOUNDARIES@, t, " "@);
    trim(t)
}

/// `"name (year)"` for a title that holds a year, and the empty text otherwise.
pub open spec fn parsed_title(title: Seq<char>) -> Seq<char> {
    let t = normalized(title);
    match first_match(YEAR@, t) {
        None => Seq::empty(),
        Some(year) => movie_name(t) + " ("@ + year + ")"@,
    }
}

/// The characters that separate words in release names: `-`, `.`, `_` and `:`.
pub open spec fn is_word_boundary(c: char) -> bool {
    c == '-' || c == '.' || c == '_' || c == ':'
}

/// `s` holds none of the word-separating characters.
pub open spec fn free_of_boundaries(s: Seq<char>) -> bool {
    forall|i: int| 0 <= i < s.len() ==> !is_word_boundary(#[trigger] s[i])
}

proof fn lemma_boundaries_class()
    ensures
        class_members(BOUNDARIES@) == Some("-._:"@),
        !" "@.contains('$'),
        free_of_boundaries(" "@),
{
    reveal_strlit(r"[-._:]");
    reveal_strlit("-._:");
    reveal_strlit(" ");
    let p = BOUNDARIES@;
    assert(p.subrange(1, p.len() - 1) =~= "-._:"@);
}

/// Replacing each of a set of characters that holds every word boundary by a
/// text free of them leaves no word boundary.
proof fn lemma_replace_chars_clears(t: Seq<char>, m: Seq<char>, rep: Seq<char>)
    requires
        forall|c: char| is_word_boundary(c) ==> m.contains(c),
        free_of_boundaries(rep),
    ensures
        free_of_boundaries(replace_chars(t, m, rep)),
    decreases t.len(),
{
    if t.len() > 0 {
        lemma_replace_chars_clears(t.drop_first(), m, rep);
        let head = if m.contains(t[0]) { rep } else { seq![t[0]] };
        let rest = replace_chars(t.drop_first(), m, rep);
        assert forall|i: int| 0 <= i < (head + rest).len() implies !is_word_boundary(#[trigger] (head + rest)[i]) by {
            if i < head.len() {
                assert((head + rest)[i] == head[i]);
            } else {
                assert((head + rest)[i] == rest[i - head.len()]);
            }
        }
    }
}

proof fn lemma_trim_start_keeps(s: Seq<char>)
    requires
        free_of_boundaries(s),
    ensures
        free_of_boundaries(trim_start(s)),
    decreases s.len(),
{
    if s.len() > 0 && crate::text::is_white(s[0]) {
        assert(free_of_boundaries(s.drop_first())) by {
            assert forall|i: int| 0 <= i < s.drop_first().len() implies !is_word_boundary(#[trigger] s.drop_first()[i]) by {
                assert(s.drop_first()[i] == s[i + 1]);
            }
        }
        lemma_trim_start_keeps(s.drop_first());
    }
}

proof fn lemma_trim_end_keeps(s: Seq<char>)
    requires
        free_of_boundaries(s),
    ensures
        free_of_boundaries(trim_end(s)),
    decreases s.len(),
{
    if s.len() > 0 && crate::text::is_white(s.last()) {
        assert(free_of_boundaries(s.drop_last())) by {
            assert forall|i: int| 0 <= i < s.drop_last().len() implies !is_word_boundary(#[trigger] s.drop_last()[i]) by {
                assert(s.drop_last()[i] == s[i]);
            }
        }
        lemma_trim_end_keeps(s.drop_last());
    }
}

/// Reads `"name (year)"` out of a torrent title; the empty string when the
/// title holds no year.
pub fn parse_title(title: &str) -> (r: String)
    ensures
        r@ == parsed_title(title@),
        r@.len() > 0 ==> exists|name: Seq<char>, year: Seq<char>|
            #![trigger name + " ("@ + year + ")"@]
            r@ == name + " ("@ + year + ")"@ && free_of_boundaries(name),
{
    let t = normalize_title(title);
    let year = match find_first(YEAR, t.as_str()) {
        Some(y) => y,
        None => {
            return String::new();
        },
    };
    let n = replace_first(REMOVE_AFTER_YEAR, t.as_str(), "");
    let n = replace_every(REMOVE_TAGS, n.as_str(), "");
    let n = replace_every(SITE, n.as_str(), "");
    let before = n;
    let n = replace_every(BOUNDARIES, before.as_str(), " ");
    let mut r = str_trim(n.as_str());
    proof {
        lemma_boundaries_class();
        reveal_strlit("-._:");
        assert forall|c: char| is_word_boundary(c) implies "-._:"@.contains(c) by {
            if c == '-' {
                assert("-._:"@[0] == c);
            } else if c == '.' {
                assert("-._:"@[1] == c);
            } else if c == '_' {
                assert("-._:"@[2] == c);
            } else {
                assert("-._:"@[3] == c);
            }
        }
        lemma_replace_chars_clears(before@, "-._:"@, " "@);
        lemma_trim_start_keeps(n@);
        lemma_trim_end_keeps(trim_start(n@));
    }
    let ghost name = r@;
    push_all(&mut r, " (");
    push_all(&mut r, year.as_str());
    push_all(&mut r, ")");
    assert(r@ == name + " ("@ + year@ + ")"@);
    r
}

/// Whether two texts are alike enough: their Levenshtein distance is below a
/// fifth of the longer one's length in bytes (a similarity above 80%).
pub open spec fn similar(a: Seq<char>, b: Seq<char>) -> bool {
    let la = encode_utf8(a).len();
    let lb = encode_utf8(b).len();
    let longest = if la >= lb { la } else { lb };
    5 * levenshtein(a, b) < longest
}

/// Whether a torrent's title names the movie: its parsed title and the
/// normalised movie title are similar.
pub open spec fn title_matches(movie_title: Seq<char>, torrent_title: Seq<char>) -> bool {
    similar(normalized(movie_title), parsed_title(torrent_title))
}

/// Whether the torrent title `og_torrent_title` names the movie `movie_title`.
pub fn is_title_match(movie_title: &str, og_torrent_title: &str) -> (r: bool)
    ensures
        r == title_matches(movie_title@, og_torrent_title@),
{
    let torrent_title = parse_title(og_torrent_title);
    let movie_title = normalize_title(movie_title);
    let d = call_levenshtein(movie_title.as_str(), torrent_title.as_str());
    let la = movie_title.as_str().as_bytes().len();
    let lb = torrent_title.as_str().as_bytes().len();
    let longest = if la >= lb { la } else { lb };
    (d as u128) * 5 < longest as u128
}

} // verus!
