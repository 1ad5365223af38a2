use torrent_api::regex_calls::{find_first, replace_every, replace_first};
use torrent_api::search::title::{
    is_title_match, normalize_title, parse_title, BOUNDARIES, MULTIPLE_SPACES, REMOVE_AFTER_YEAR,
    REMOVE_TAGS, SITE, YEAR,
};

#[test]
fn test_normalize_title() {
    assert_eq!(normalize_title(" test    TEST   test "), "test test test");
}

#[test]
fn test_normalize_title_unicode() {
    assert_eq!(normalize_title("test👍🏻"), "test");
}

#[test]
fn test_space_regex() {
    assert_eq!(find_first(MULTIPLE_SPACES, "test  test").unwrap().as_str(), "  ");
}

/// Torrent names and the "name (year)" that each gives.
const PARSED_TITLES: [(&str, &str); 5] = [
    ("The.Matrix.1999.1080p.BluRay.x264-GROUP", "the matrix (1999)"),
    ("Inception 2010 720p", "inception (2010)"),
    ("[YTS] Movie Title (2005) [1080p]", "movie title (2005)"),
    ("www.site.com - Film.2019.WEB", "film (2019)"),
    ("No year here", ""),
];

#[test]
fn test_parse_title() {
    for (name, parsed) in PARSED_TITLES.iter() {
        assert_eq!(&parse_title(name), parsed, "{}", name);
    }
}

#[test]
fn test_boundaries_regex() {
    let boundaries = "_.:-";
    assert_eq!(replace_every(BOUNDARIES, boundaries, ""), "");
}

#[test]
fn test_remove_tags_regex() {
    let tags = "[test]middle(test)";
    assert_eq!(replace_every(REMOVE_TAGS, tags, ""), "middle");
}

#[test]
fn test_year_regex() {
    let year = "test test.1999 test";
    assert_eq!(find_first(YEAR, year).unwrap().as_str(), "1999");
}

#[test]
fn test_site_regex() {
    let site = "start www.test.com end";
    assert_eq!(replace_every(SITE, site, ""), "start  end");
}

#[test]
fn test_remove_after_year_regex() {
    let remove_after_year = "1999 test";
    assert_eq!(replace_first(REMOVE_AFTER_YEAR, remove_after_year, ""), "");
}

#[test]
fn title_match_accepts_same_movie() {
    assert!(is_title_match("The Matrix (1999)", "The.Matrix.1999.1080p.BluRay.x264"));
}

#[test]
fn title_match_rejects_other_movie() {
    assert!(!is_title_match("Inception (2010)", "The.Matrix.1999.1080p.BluRay.x264"));
}

#[test]
fn title_match_rejects_title_without_year() {
    // the torrent title parses to the empty text, which is never similar
    assert!(!is_title_match("", "No year here"));
}

#[test]
fn title_match_near_threshold() {
    // "the matrix (1999)" is 17 bytes; 3 edits is below a fifth of it, 4 is not
    assert!(is_title_match("the mbtrax (1998)", "The Matrix 1999 720p"));
    assert!(!is_title_match("thx mbtrbx (1998)", "The Matrix 1999 720p"));
}
