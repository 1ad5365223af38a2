//! Calls into the `url` crate, on URLs held as their text.
use vstd::prelude::*;

verus! {

/// What `Url::parse(text)` gives, as the scheme and the decoded query pairs in
/// order, or the text of the parse error.
pub uninterp spec fn parsed_url(text: Seq<char>) -> Result<(Seq<char>, Seq<(Seq<char>, Seq<char>)>), Seq<char>>;

/// The text of `url` after `query_pairs_mut().append_pair(key, value)`;
/// `url` itself when it does not parse.
pub uninterp spec fn url_with_pair(url: Seq<char>, key: Seq<char>, value: Seq<char>) -> Seq<char>;

/// The text of `url` after `path_segments_mut().push(segment)`;
/// `url` itself when it does not parse or cannot have path segments.
pub uninterp spec fn url_with_segment(url: Seq<char>, segment: Seq<char>) -> Seq<char>;

/// The text of `url` after `set_path(path)`; `url` itself when it does not parse.
pub uninterp spec fn url_with_path(url: Seq<char>, path: Seq<char>) -> Seq<char>;

/// Calls `Url::parse`, then `scheme` and `query_pairs` on the result.
#[verifier::external_body]
pub(crate) fn call_parse(text: &str) -> (r: Result<(String, Vec<(String, String)>), String>)
    ensures
        match r {
            Ok(p) => parsed_url(text@) == Ok::<(Seq<char>, Seq<(Seq<char>, Seq<char>)>), Seq<char>>(p.deep_view()),
            Err(e) => parsed_url(text@) == Err::<(Seq<char>, Seq<(Seq<char>, Seq<char>)>), Seq<char>>(e@),
        },
{
    match url::Url::parse(text) {
        Ok(u) => Ok((u.scheme().to_string(), u.query_pairs().into_owned().collect())),
        Err(e) => Err(e.to_string()),
    }
}

/// Calls `Url::parse` and `query_pairs_mut().append_pair(key, value)`, giving the URL's text.
#[verifier::external_body]
pub(crate) fn call_append_pair(url: &str, key: &str, value: &str) -> (r: String)
    ensures
        r@ == url_with_pair(url@, key@, value@),
{
    match url::Url::parse(url) {
        Ok(mut u) => {
            u.query_pairs_mut().append_pair(key, value);
            u.to_string()
        },
        Err(_) => url.to_string(),
    }
}

/// Calls `Url::parse` and `path_segments_mut().push(segment)`, giving the URL's text.
#[verifier::external_body]
pub(crate) fn call_push_segment(url: &str, segment: &str) -> (r: String)
    ensures
        r@ == url_with_segment(url@, segment@),
{
    match url::Url::parse(url) {
        Ok(mut u) => {
            if let Ok(mut segments) = u.path_segments_mut() {
                segments.push(segment);
            }
            u.to_string()
        },
        Err(_) => url.to_string(),
    }
}

/// Calls `Url::parse` and `set_path(path)`, giving the URL's text.
#[verifier::external_body]
pub(crate) fn call_set_path(url: &str, path: &str) -> (r: String)
    ensures
        r@ == url_with_path(url@, path@),
{
    match url::Url::parse(url) {
        Ok(mut u) => {
            u.set_path(path);
            u.to_string()
        },
        Err(_) => url.to_string(),
    }
}

} // verus!
