//! The Pirate Bay: its query URLs, and its JSON results turned into torrents.
use vstd::prelude::*;
use crate::chrono_calls::{timestamp_or_epoch, utc_timestamp_or_epoch};
use crate::search::movie::{Codec, MovieProperties, MoviePropertiesView, Quality, Source};
use crate::search::options::{Category, MovieOptions, SearchOptions};
use crate::search::provider::Provider;
use crate::search::torrent::{format_magnet, magnet_link, Torrent, TorrentView};
use crate::search::trackers::{pirate_bay_tracker_list, pirate_bay_trackers};
use crate::text::{parse_i64, parse_i64_spec, parse_u64, parse_unsigned, parse_usize, str_eq};
use crate::url_calls::{call_append_pair, url_with_pair};

verus! {

/// One result of the Pirate Bay's JSON API; every field is text.
#[derive(Debug)]
pub struct PirateBayTorrent {
    pub id: String,
    pub name: String,
    pub info_hash: String,
    pub leechers: String,
    pub seeders: String,
    pub num_files: String,
    pub size: String,
    pub username: String,
    pub added: String,
    pub status: String,
    pub category: String,
    pub imdb: String,
}

pub const PIRATE_BAY_API: &'static str = "https://apibay.org/q.php";

/// An unsigned number read from text, or 0 when the text is not one.
pub open spec fn number_or_zero(s: Seq<char>, max: nat) -> nat {
    match parse_unsigned(s, max) {
        Some(v) => v,
        None => 0,
    }
}

/// The properties of a movie read from a torrent's name.
pub open spec fn properties_from_name(imdb: Seq<char>, name: Seq<char>) -> MoviePropertiesView {
    MoviePropertiesView {
        quality: Quality::of_title(name),
        codec: Codec::of_title(name),
        source: Source::of_title(name),
        imdb: if imdb.len() == 0 { None } else { Some(imdb) },
    }
}

/// The torrent that a Pirate Bay result describes; numbers that do not read
/// count as 0, and a time that does not read as the epoch.
pub open spec fn from_pirate_bay_spec(v: PirateBayTorrent) -> TorrentView {
    TorrentView {
        added: timestamp_or_epoch(
            match parse_i64_spec(v.added@) {
                Some(x) => x,
                None => 0,
            },
        ) as i64,
        category: v.category@,
        file_count: number_or_zero(v.num_files@, usize::MAX as nat) as usize,
        id: v.id@,
        info_hash: v.info_hash@,
        leechers: number_or_zero(v.leechers@, usize::MAX as nat) as usize,
        name: v.name@,
        seeders: number_or_zero(v.seeders@, usize::MAX as nat) as usize,
        size: number_or_zero(v.size@, u64::MAX as nat) as u64,
        provider: seq![Provider::PirateBay],
        magnet: magnet_link(v.info_hash@, v.name@, pirate_bay_tracker_list()),
        movie_properties: Some(properties_from_name(v.imdb@, v.name@)),
    }
}

/// The movie properties read from `name`, with `imdb` as the IMDb id.
pub fn properties_of_name(imdb: String, name: &str) -> (r: MovieProperties)
    ensures
        r@ == properties_from_name(imdb@, name@),
{
    let source = match Source::from_str(name) {
        Ok(s) => s,
        Err(_) => Source::Unknown,
    };
    MovieProperties::new(imdb, Quality::from(name), Codec::from(name), source)
}

impl Torrent {
    /// The torrent that a Pirate Bay result describes.
    pub fn from_pirate_bay(value: PirateBayTorrent) -> (r: Torrent)
        ensures
            r@ == from_pirate_bay_spec(value),
    {
        let secs = match parse_i64(value.added.as_str()) {
            Some(x) => x,
            None => 0,
        };
        let added = utc_timestamp_or_epoch(secs);
        let file_count = match parse_usize(value.num_files.as_str()) {
            Some(x) => x,
            None => 0,
        };
        let leechers = match parse_usize(value.leechers.as_str()) {
            Some(x) => x,
            None => 0,
        };
        let seeders = match parse_usize(value.seeders.as_str()) {
            Some(x) => x,
            None => 0,
        };
        let size = match parse_u64(value.size.as_str()) {
            Some(x) => x,
            None => 0,
        };
        let trackers = pirate_bay_trackers();
        let magnet = format_magnet(value.info_hash.as_str(), value.name.as_str(), trackers.as_slice());
        let props = properties_of_name(value.imdb, value.name.as_str());
        let mut provider = Vec::new();
        provider.push(Provider::PirateBay);
        Torrent {
            added,
            category: value.category,
            file_count,
            id: value.id,
            info_hash: value.info_hash,
            leechers,
            name: value.name,
            seeders,
            size,
            provider,
            magnet,
            movie_properties: Some(props),
        }
    }
}

/// The category codes of the Pirate Bay.
pub open spec fn pirate_bay_category(category: Category) -> Seq<char> {
    match category {
        Category::All => ""@,
        Category::Applications => "300"@,
        Category::Audio => "100"@,
        Category::Video => "200"@,
        Category::Games => "400"@,
        Category::Other => "600"@,
    }
}

/// Whether a result is the placeholder the API sends when nothing was found.
pub open spec fn is_empty_result(t: PirateBayTorrent) -> bool {
    &&& t.id@ == "0"@
    &&& t.size@ == "0"@
    &&& t.category@ == "0"@
    &&& t.num_files@ == "0"@
    &&& t.added@ == "0"@
}

/// The torrents of a list of results: none for the lone placeholder, else one per result.
pub open spec fn results_spec(results: Seq<PirateBayTorrent>) -> Seq<TorrentView> {
    if results.len() == 1 && is_empty_result(results[0]) {
        Seq::empty()
    } else {
        results.map_values(|v: PirateBayTorrent| from_pirate_bay_spec(v))
    }
}

/// Whether a torrent's movie properties carry the IMDb id `imdb`.
pub open spec fn has_imdb(t: TorrentView, imdb: Seq<char>) -> bool {
    match t.movie_properties {
        Some(p) => p.imdb == Some(imdb),
        None => false,
    }
}

/// The views of a list of torrents.
pub open spec fn views(ts: Seq<Torrent>) -> Seq<TorrentView> {
    ts.map_values(|t: Torrent| t@)
}

pub struct PirateBay {}

impl PirateBay {
    /// The Pirate Bay's code for a category (`""` for all).
    pub fn format_category(category: &Category) -> (r: &'static str)
        ensures
            r@ == pirate_bay_category(*category),
    {
        match category {
            Category::All => "",
            Category::Applications => "300",
            Category::Audio => "100",
            Category::Video => "200",
            Category::Games => "400",
            Category::Other => "600",
        }
    }

    /// The API URL of a search: the query as `q` and the category code as `cat`.
    pub fn format_url(search_options: &SearchOptions) -> (r: String)
        ensures
            r@ == url_with_pair(
                url_with_pair(PIRATE_BAY_API@, "q"@, search_options.spec_query()),
                "cat"@,
                pirate_bay_category(search_options.spec_category()),
            ),
    {
        let url = call_append_pair(PIRATE_BAY_API, "q", search_options.query());
        call_append_pair(url.as_str(), "cat", PirateBay::format_category(search_options.category()))
    }

    /// The API URL of a movie search: the IMDb id as `q`.
    pub fn format_movie_url(movie_options: &MovieOptions) -> (r: String)
        ensures
            r@ == url_with_pair(PIRATE_BAY_API@, "q"@, movie_options.spec_imdb()),
    {
        call_append_pair(PIRATE_BAY_API, "q", movie_options.imdb())
    }

    /// Whether a result is the placeholder the API sends when nothing was found.
    pub fn is_empty_torrent(torrent: &PirateBayTorrent) -> (r: bool)
        ensures
            r == is_empty_result(*torrent),
    {
        str_eq(torrent.id.as_str(), "0") && str_eq(torrent.size.as_str(), "0") && str_eq(
            torrent.category.as_str(),
            "0",
        ) && str_eq(torrent.num_files.as_str(), "0") && str_eq(torrent.added.as_str(), "0")
    }

    /// The torrents of the API's results.
    pub fn torrents_from_results(results: Vec<PirateBayTorrent>) -> (r: Vec<Torrent>)
        ensures
            views(r@) == results_spec(results@),
    {
        if results.len() == 1 && PirateBay::is_empty_torrent(&results[0]) {
            return Vec::new();
        }
        let ghost all = results@;
        let mut rest = results;
        let mut r: Vec<Torrent> = Vec::new();
        while rest.len() > 0
            invariant
                all.len() == r@.len() + rest@.len(),
                rest@ == all.skip(r@.len() as int),
                views(r@) == all.take(r@.len() as int).map_values(
                    |v: PirateBayTorrent| from_pirate_bay_spec(v),
                ),
            decreases rest.len(),
        {
            let ghost k = r@.len() as int;
            let v = rest.remove(0);
            assert(v == all[k]);
            let t = Torrent::from_pirate_bay(v);
            let ghost old_r = r@;
            r.push(t);
            assert forall|j: int| 0 <= j <= k implies views(r@)[j] == from_pirate_bay_spec(all[j]) by {
                if j < k {
                    assert(r@[j] == old_r[j]);
                    assert(views(old_r)[j] == all.take(k).map_values(
                        |v: PirateBayTorrent| from_pirate_bay_spec(v),
                    )[j]);
                } else {
                    assert(r@[j] == t);
                }
            }
            assert(rest@ == all.skip(k + 1));
            assert(views(r@) =~= all.take(k + 1).map_values(
                |v: PirateBayTorrent| from_pirate_bay_spec(v),
            ));
        }
        assert(all.take(all.len() as int) == all);
        r
    }

    /// The torrents whose movie properties carry the IMDb id `imdb`, in order.
    pub fn retain_movie(torrents: Vec<Torrent>, imdb: &str) -> (r: Vec<Torrent>)
        ensures
            views(r@) == views(torrents@).filter(|t: TorrentView| has_imdb(t, imdb@)),
    {
        let ghost all = views(torrents@);
        let ghost n = torrents@.len();
        let mut rest = torrents;
        let mut r: Vec<Torrent> = Vec::new();
        while rest.len() > 0
            invariant
                n == all.len(),
                rest@.len() <= n,
                views(rest@) == all.skip(n - rest@.len()),
                views(r@) == all.take(n - rest@.len()).filter(|t: TorrentView| has_imdb(t, imdb@)),
            decreases rest.len(),
        {
            let ghost k = n - rest@.len();
            let ghost before = all.take(k);
            assert(all.take(k + 1) == before.push(all[k]));
            proof {
                before.lemma_filter_push(all[k], |t: TorrentView| has_imdb(t, imdb@));
            }
            let ghost old_rest = rest@;
            let t = rest.remove(0);
            assert(t == old_rest[0]);
            assert(views(old_rest)[0] == all.skip(k)[0]);
            assert(views(rest@) =~= all.skip(k + 1)) by {
                assert forall|j: int| 0 <= j < rest@.len() implies views(rest@)[j] == all.skip(
                    k + 1,
                )[j] by {
                    assert(rest@[j] == old_rest[j + 1]);
                    assert(views(old_rest)[j + 1] == all.skip(k)[j + 1]);
                }
            }
            let keep = match &t.movie_properties {
                Some(p) => match p.imdb() {
                    Some(i) => str_eq(i.as_str(), imdb),
                    None => false,
                },
                None => false,
            };
            if keep {
                r.push(t);
            }
        }
        assert(all.take(n as int) == all);
        r
    }
}

} // verus!
