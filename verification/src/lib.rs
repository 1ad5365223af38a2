//! Torrent search and qBittorrent helpers: the title, option and result
//! handling of a torrent search client, with contracts proved by Verus.
use vstd::prelude::*;

pub mod text;
pub mod regex_calls;
pub mod distance_calls;
pub mod chrono_calls;
pub mod urlencoding_calls;
pub mod url_calls;
pub mod bytesize_calls;
pub mod scraper_calls;
pub mod multimap_calls;
pub mod search;
pub mod qbit;
pub mod magnet;
pub mod int_scalar;

verus! {

} // verus!
