//! The parameter records that requests send, and the records that answers carry.
use vstd::prelude::*;

verus! {

/// The login form.
pub struct Credentials {
    pub username: String,
    pub password: String,
}

impl Credentials {
    pub fn new(username: String, password: String) -> (r: Self)
        ensures
            r.username@ == username@,
            r.password@ == password@,
    {
        Self { username, password }
    }
}

/// The form that creates (or edits) a category.
pub struct AddCategoryOptions {
    pub category: String,
    pub save_path: String,
}

impl AddCategoryOptions {
    pub fn new(name: String, save_path: String) -> (r: Self)
        ensures
            r.category@ == name@,
            r.save_path@ == save_path@,
    {
        Self { category: name, save_path }
    }
}

/// The form that puts torrents into a category.
#[derive(Debug)]
pub struct SetCategoryOptions {
    pub hashes: String,
    pub category: String,
}

impl SetCategoryOptions {
    pub fn new(hashes: String, category: String) -> (r: Self)
        ensures
            r.hashes@ == hashes@,
            r.category@ == category@,
    {
        Self { hashes, category }
    }
}

/// The form that deletes torrents, by hash, with or without their files.
#[derive(Debug)]
pub struct DeleteTorrentsParameters {
    pub delete_files: bool,
    pub hashes: Vec<String>,
}

impl DeleteTorrentsParameters {
    pub fn new(hashes: Vec<String>, delete_files: bool) -> (r: Self)
        ensures
            r.hashes.deep_view() == hashes.deep_view(),
            r.delete_files == delete_files,
    {
        Self { delete_files, hashes }
    }
}

/// A category of qBittorrent and where its downloads are saved.
#[derive(Debug, Clone)]
pub struct Category {
    pub name: String,
    pub save_path: String,
}

impl Category {
    pub fn name(&self) -> (r: &str)
        ensures
            r@ == self.name@,
    {
        self.name.as_str()
    }

    pub fn save_path(&self) -> (r: &str)
        ensures
            r@ == self.save_path@,
    {
        self.save_path.as_str()
    }
}

/// The form that adds torrents; every field but the URLs is optional.
#[derive(Debug)]
pub struct AddTorrentOptions {
    pub urls: String,
    pub savepath: Option<String>,
    pub cookie: Option<String>,
    pub category: Option<String>,
    pub tags: Option<String>,
    pub skip_checking: Option<bool>,
    pub paused: Option<bool>,
    pub root_folder: Option<bool>,
    pub rename: Option<String>,
    pub up_limit: Option<i32>,
    pub dl_limit: Option<i32>,
    pub auto_tmm: Option<bool>,
    pub sequential_download: Option<bool>,
    pub first_last_piece_prio: Option<bool>,
}

impl Default for AddTorrentOptions {
    /// Options with every optional field unset and no URLs.
    fn default() -> (r: Self)
        ensures
            r.urls@ == Seq::<char>::empty(),
            r.savepath is None,
            r.cookie is None,
            r.category is None,
            r.tags is None,
            r.skip_checking is None,
            r.paused is None,
            r.root_folder is None,
            r.rename is None,
            r.up_limit is None,
            r.dl_limit is None,
            r.auto_tmm is None,
            r.sequential_download is None,
            r.first_last_piece_prio is None,
    {
        AddTorrentOptions {
            urls: String::new(),
            savepath: None,
            cookie: None,
            category: None,
            tags: None,
            skip_checking: None,
            paused: None,
            root_folder: None,
            rename: None,
            up_limit: None,
            dl_limit: None,
            auto_tmm: None,
            sequential_download: None,
            first_last_piece_prio: None,
        }
    }
}

impl AddTorrentOptions {
    pub fn urls(self, value: String) -> (r: Self)
        ensures
            r == (AddTorrentOptions { urls: value, ..self }),
    {
        AddTorrentOptions { urls: value, ..self }
    }

    pub fn savepath(self, value: String) -> (r: Self)
        ensures
            r == (AddTorrentOptions { savepath: Some(value), ..self }),
    {
        AddTorrentOptions { savepath: Some(value), ..self }
    }

    pub fn cookie(self, value: String) -> (r: Self)
        ensures
            r == (AddTorrentOptions { cookie: Some(value), ..self }),
    {
        AddTorrentOptions { cookie: Some(value), ..self }
    }

    pub fn category(self, value: String) -> (r: Self)
        ensures
            r == (AddTorrentOptions { category: Some(value), ..self }),
    {
        AddTorrentOptions { category: Some(value), ..self }
    }

    pub fn tags(self, value: String) -> (r: Self)
        ensures
            r == (AddTorrentOptions { tags: Some(value), ..self }),
    {
        AddTorrentOptions { tags: Some(value), ..self }
    }

    pub fn skip_checking(self, value: bool) -> (r: Self)
        ensures
            r == (AddTorrentOptions { skip_checking: Some(value), ..self }),
    {
        AddTorrentOptions { skip_checking: Some(value), ..self }
    }

    pub fn paused(self, value: bool) -> (r: Self)
        ensures
            r == (AddTorrentOptions { paused: Some(value), ..self }),
    {
        AddTorrentOptions { paused: Some(value), ..self }
    }

    pub fn root_folder(self, value: bool) -> (r: Self)
        ensures
            r == (AddTorrentOptions { root_folder: Some(value), ..self }),
    {
        AddTorrentOptions { root_folder: Some(value), ..self }
    }

    pub fn rename(self, value: String) -> (r: Self)
        ensures
            r == (AddTorrentOptions { rename: Some(value), ..self }),
    {
        AddTorrentOptions { rename: Some(value), ..self }
    }

    pub fn up_limit(self, value: i32) -> (r: Self)
        ensures
            r == (AddTorrentOptions { up_limit: Some(value), ..self }),
    {
        AddTorrentOptions { up_limit: Some(value), ..self }
    }

    pub fn dl_limit(self, value: i32) -> (r: Self)
        ensures
            r == (AddTorrentOptions { dl_limit: Some(value), ..self }),
    {
        AddTorrentOptions { dl_limit: Some(value), ..self }
    }

    pub fn auto_tmm(self, value: bool) -> (r: Self)
        ensures
            r == (AddTorrentOptions { auto_tmm: Some(value), ..self }),
    {
        AddTorrentOptions { auto_tmm: Some(value), ..self }
    }

    pub fn sequential_download(self, value: bool) -> (r: Self)
        ensures
            r == (AddTorrentOptions { sequential_download: Some(value), ..self }),
    {
        AddTorrentOptions { sequential_download: Some(value), ..self }
    }

    pub fn first_last_piece_prio(self, value: bool) -> (r: Self)
        ensures
            r == (AddTorrentOptions { first_last_piece_prio: Some(value), ..self }),
    {
        AddTorrentOptions { first_last_piece_prio: Some(value), ..self }
    }
}

/// The filter of a torrent listing; every field is optional.
#[derive(Debug)]
pub struct GetTorrentsParameters {
    pub filter: Option<String>,
    pub category: Option<String>,
    pub tag: Option<String>,
    pub sort: Option<String>,
    pub reverse: Option<bool>,
    pub limit: Option<u8>,
    pub offset: Option<i8>,
    pub hashes: Option<Vec<String>>,
}

impl Default for GetTorrentsParameters {
    /// A listing of every torrent.
    fn default() -> (r: Self)
        ensures
            r.filter is None,
            r.category is None,
            r.tag is None,
            r.sort is None,
            r.reverse is None,
            r.limit is None,
            r.offset is None,
            r.hashes is None,
    {
        GetTorrentsParameters {
            filter: None,
            category: None,
            tag: None,
            sort: None,
            reverse: None,
            limit: None,
            offset: None,
            hashes: None,
        }
    }
}

impl GetTorrentsParameters {
    pub fn filter(self, value: String) -> (r: Self)
        ensures
            r == (GetTorrentsParameters { filter: Some(value), ..self }),
    {
        GetTorrentsParameters { filter: Some(value), ..self }
    }

    pub fn category(self, value: String) -> (r: Self)
        ensures
            r == (GetTorrentsParameters { category: Some(value), ..self }),
    {
        GetTorrentsParameters { category: Some(value), ..self }
    }

    pub fn tag(self, value: String) -> (r: Self)
        ensures
            r == (GetTorrentsParameters { tag: Some(value), ..self }),
    {
        GetTorrentsParameters { tag: Some(value), ..self }
    }

    pub fn sort(self, value: String) -> (r: Self)
        ensures
            r == (GetTorrentsParameters { sort: Some(value), ..self }),
    {
        GetTorrentsParameters { sort: Some(value), ..self }
    }

    pub fn reverse(self, value: bool) -> (r: Self)
        ensures
            r == (GetTorrentsParameters { reverse: Some(value), ..self }),
    {
        GetTorrentsParameters { reverse: Some(value), ..self }
    }

    pub fn limit(self, value: u8) -> (r: Self)
        ensures
            r == (GetTorrentsParameters { limit: Some(value), ..self }),
    {
        GetTorrentsParameters { limit: Some(value), ..self }
    }

    pub fn offset(self, value: i8) -> (r: Self)
        ensures
            r == (GetTorrentsParameters { offset: Some(value), ..self }),
    {
        GetTorrentsParameters { offset: Some(value), ..self }
    }

    pub fn hashes(self, value: Vec<String>) -> (r: Self)
        ensures
            r == (GetTorrentsParameters { hashes: Some(value), ..self }),
    {
        GetTorrentsParameters { hashes: Some(value), ..self }
    }
}

/// The state of a torrent in qBittorrent.
#[derive(Debug, Clone, Copy, PartialEq, Eq, Structural)]
pub enum TorrentState {
    /// Some error occurred, applies to paused torrents
    Error,
    /// Torrent data files is missing
    MissingFiles,
    /// Torrent is being seeded and data is being transferred
    Uploading,
    /// Torrent is paused and has finished downloading
    PausedUP,
    /// Queuing is enabled and torrent is queued for upload
    QueuedUP,
    /// Torrent is being seeded, but no connection were made
    StalledUP,
    /// Torrent has finished downloading and is being checked
    CheckingUP,
    /// Torrent is forced to uploading and ignore queue limit
    ForcedUP,
    /// Torrent is allocating disk space for download
    Allocating,
    /// Torrent is being downloaded and data is being transferred
    Downloading,
    /// Torrent has just started downloading and is fetching metadata
    MetaDL,
    /// Torrent is paused and has NOT finished downloading
    PausedDL,
    /// Queuing is enabled and torrent is queued for download
    QueuedDL,
    /// Torrent is being downloaded, but no connection were made
    StalledDL,
    /// Same as checkingUP, but torrent has NOT finished downloading
    CheckingDL,
    /// Torrent is forced to downloading to ignore queue limit
    ForcedDL,
    /// Checking resume data on qBt startup
    CheckingResumeData,
    /// Torrent is moving to another location
    Moving,
    /// Unknown status
    Unknown,
}

impl TorrentState {
    /// The states in which a torrent is still on its way to being downloaded.
    pub open spec fn spec_is_active(self) -> bool {
        ||| self == TorrentState::Allocating
        ||| self == TorrentState::Downloading
        ||| self == TorrentState::MetaDL
        ||| self == TorrentState::CheckingDL
        ||| self == TorrentState::ForcedDL
        ||| self == TorrentState::CheckingResumeData
        ||| self == TorrentState::Unknown
    }

    pub fn is_active(&self) -> (r: bool)
        ensures
            r == self.spec_is_active(),
    {
        match self {
            TorrentState::Allocating | TorrentState::Downloading | TorrentState::MetaDL
            | TorrentState::CheckingDL | TorrentState::ForcedDL
            | TorrentState::CheckingResumeData | TorrentState::Unknown => true,
            _ => false,
        }
    }
}

} // verus!
