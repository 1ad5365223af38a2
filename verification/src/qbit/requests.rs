//! What the client sends with each request and how it reads each answer.
use vstd::prelude::*;
use crate::qbit::error::{Error, ErrorKind};
use crate::qbit::models::{AddTorrentOptions, Category};
use crate::text::{ends_with, join, join_strings, push_all, replace, split_nth, split_on, str_ends_with, str_eq, str_replace};

verus! {

/// The torrents of one request, as the form field lists them: their hashes joined by `|`.
pub trait SerializeHashes {
    fn serialize_hashes(&self) -> Option<String>;
}

impl SerializeHashes for Vec<String> {
    /// The hashes joined by `|`.
    fn serialize_hashes(&self) -> (r: Option<String>)
        ensures
            (r matches Some(s) && s@ == join(self.deep_view(), "|"@)),
    {
        Some(join_strings(self, "|"))
    }
}

impl SerializeHashes for Option<Vec<String>> {
    /// The hashes joined by `|`, or nothing when there are none to send.
    fn serialize_hashes(&self) -> (r: Option<String>)
        ensures
            match self {
                Some(h) => (r matches Some(s) && s@ == join(h.deep_view(), "|"@)),
                None => r is None,
            },
    {
        match self {
            Some(h) => Some(join_strings(h, "|")),
            None => None,
        }
    }
}

pub const DOWNLOADS_LOCAL: &'static str = "/downloads";
pub const DOWNLOADS_REMOTE: &'static str = "/downloads";

/// A path on the qBittorrent host as seen from here: its downloads folder
/// replaced by the local one.
pub fn remote_to_local(remote: &str) -> (r: String)
    ensures
        r@ == replace(remote@, DOWNLOADS_REMOTE@, DOWNLOADS_LOCAL@),
{
    assert(DOWNLOADS_REMOTE@.len() > 0) by {
        reveal_strlit("/downloads");
    }
    str_replace(remote, DOWNLOADS_REMOTE, DOWNLOADS_LOCAL)
}

/// The options of an add request, with the torrents' URLs one per line.
pub fn options_with_urls(urls: &Vec<String>, options: AddTorrentOptions) -> (r: AddTorrentOptions)
    ensures
        r.urls@ == join(urls.deep_view(), "\n"@),
        r == (AddTorrentOptions { urls: r.urls, ..options }),
{
    let joined = join_strings(urls, "\n");
    options.urls(joined)
}

/// The answer to an add request: `Ok.` means the torrents were added.
pub fn add_outcome(response: &str) -> (r: Result<(), Error>)
    ensures
        response@ == "Ok."@ <==> r is Ok,
        r matches Err(e) ==> e.spec_kind() == ErrorKind::TorrentAddError
            && e.spec_message() == "Could not add torrent"@,
{
    if str_eq(response, "Ok.") {
        Ok(())
    } else {
        Err(Error::new(ErrorKind::TorrentAddError, "Could not add torrent".to_owned()))
    }
}

/// The answer to a request that only reports success: a failure carries the body.
pub fn request_outcome(success: bool, body: String) -> (r: Result<(), Error>)
    ensures
        success <==> r is Ok,
        r matches Err(e) ==> e.spec_kind() == ErrorKind::RequestError && e.spec_message() == body@,
{
    if success {
        Ok(())
    } else {
        Err(Error::new(ErrorKind::RequestError, body))
    }
}

/// A category must have a name before it can be edited.
pub fn check_category_name(name: &str) -> (r: Result<(), Error>)
    ensures
        name@.len() > 0 <==> r is Ok,
        r matches Err(e) ==> (e.spec_kind() matches ErrorKind::BadParameters(p) && p@ == "name"@)
            && e.spec_message() == "Name is empty"@,
{
    if name.is_empty() {
        Err(Error::new(ErrorKind::BadParameters("name".to_owned()), "Name is empty".to_owned()))
    } else {
        Ok(())
    }
}

/// The answer to putting torrents into a category: a failure means the category does not exist.
pub fn set_category_outcome(success: bool, category: &str) -> (r: Result<(), Error>)
    ensures
        success <==> r is Ok,
        r matches Err(e) ==> e.spec_kind() == ErrorKind::CategoryDoesNotExist
            && e.spec_message() == "Category: \""@ + category@ + "\" does not exist"@,
{
    if success {
        return Ok(());
    }
    let mut message = String::new();
    push_all(&mut message, "Category: \"");
    push_all(&mut message, category);
    push_all(&mut message, "\" does not exist");
    Err(Error::new(ErrorKind::CategoryDoesNotExist, message))
}

/// The error of a refused torrent listing: a body ending in `parameter is
/// invalid` names the parameter; any other body is a request error.
pub fn listing_error(body: String) -> (r: Error)
    ensures
        ends_with(body@, "parameter is invalid"@) ==> (r.spec_kind() matches ErrorKind::BadParameters(p)
            && p@ == replace(body@, " parameter is invalid"@, ""@) && r.spec_message() == "message"@),
        !ends_with(body@, "parameter is invalid"@) ==> (r.spec_kind() == ErrorKind::RequestError
            && r.spec_message() == body@),
{
    if str_ends_with(body.as_str(), "parameter is invalid") {
        assert(" parameter is invalid"@.len() > 0) by {
            reveal_strlit(" parameter is invalid");
        }
        let name = str_replace(body.as_str(), " parameter is invalid", "");
        Error::new(ErrorKind::BadParameters(name), "message".to_owned())
    } else {
        Error::new(ErrorKind::RequestError, body)
    }
}

/// What ensuring a category takes.
#[derive(Debug, Clone, Copy, PartialEq, Eq, Structural)]
pub enum CategoryAction {
    /// The category does not exist: add it.
    Add,
    /// It exists with another save path: edit it.
    Edit,
    /// It exists as wanted.
    Keep,
}

/// The position of the first category named `name`.
pub open spec fn category_index(categories: Seq<Category>, name: Seq<char>) -> Option<int>
    decreases categories.len(),
{
    if categories.len() == 0 {
        None
    } else if categories[0].name@ == name {
        Some(0)
    } else {
        match category_index(categories.drop_first(), name) {
            Some(i) => Some(i + 1),
            None => None,
        }
    }
}

/// What ensuring the category `name` with `save_path` takes, given the existing categories.
pub open spec fn category_action_spec(categories: Seq<Category>, name: Seq<char>, save_path: Seq<char>) -> CategoryAction {
    match category_index(categories, name) {
        None => CategoryAction::Add,
        Some(i) => if categories[i].save_path@ != save_path {
            CategoryAction::Edit
        } else {
            CategoryAction::Keep
        },
    }
}

/// Decides whether the category `name` must be added, edited or kept.
pub fn category_action(categories: &Vec<Category>, name: &str, save_path: &str) -> (r: CategoryAction)
    ensures
        r == category_action_spec(categories@, name@, save_path@),
{
    let mut i: usize = 0;
    assert(categories@.skip(0) == categories@);
    while i < categories.len()
        invariant
            i <= categories@.len(),
            category_index(categories@, name@) == match category_index(categories@.skip(i as int), name@) {
                Some(j) => Some(j + i),
                None => None::<int>,
            },
        decreases categories.len() - i,
    {
        let ghost rest = categories@.skip(i as int);
        assert(rest[0] == categories@[i as int]);
        if str_eq(categories[i].name(), name) {
            if str_eq(categories[i].save_path(), save_path) {
                return CategoryAction::Keep;
            } else {
                return CategoryAction::Edit;
            }
        }
        assert(rest.drop_first() == categories@.skip(i + 1));
        i = i + 1;
    }
    CategoryAction::Add
}

/// The extensions of the files that an import copies into the movies folder.
pub open spec fn media_extensions() -> Seq<Seq<char>> {
    seq!["mkv"@, "mp4"@, "avi"@, "m4v"@, "mov"@, "wmv"@, "mpg"@, "mpeg"@]
}

/// Whether a file with extension `ext` is a media file that an import copies.
pub fn is_media_extension(ext: &str) -> (r: bool)
    ensures
        r == media_extensions().contains(ext@),
{
    let ghost m = media_extensions();
    let r = str_eq(ext, "mkv") || str_eq(ext, "mp4") || str_eq(ext, "avi") || str_eq(ext, "m4v")
        || str_eq(ext, "mov") || str_eq(ext, "wmv") || str_eq(ext, "mpg") || str_eq(ext, "mpeg");
    proof {
        if r {
            let names = seq!["mkv"@, "mp4"@, "avi"@, "m4v"@, "mov"@, "wmv"@, "mpg"@, "mpeg"@];
            assert(names == m);
            let i = choose|i: int| 0 <= i < 8 && names[i] == ext@;
            assert(m[i] == ext@);
        } else {
            assert forall|i: int| 0 <= i < m.len() implies m[i] != ext@ by {}
        }
    }
    r
}

/// The session cookie of a login answer: the `set-cookie` value up to its first `;`.
pub fn session_id_of_cookie(cookie: &str) -> (r: String)
    ensures
        r@ == split_on(cookie@, ';')[0],
{
    proof {
        lemma_split_first(cookie@, ';');
    }
    match split_nth(cookie, ';', 0) {
        Some(s) => s,
        None => String::new(),
    }
}

proof fn lemma_split_first(s: Seq<char>, sep: char)
    ensures
        0 < split_on(s, sep).len(),
    decreases s.len(),
{
    if s.len() > 0 {
        lemma_split_first(s.drop_first(), sep);
    }
}

} // verus!
