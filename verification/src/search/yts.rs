//! YTS: its query URLs, and its movies' torrents turned into torrents.
use vstd::prelude::*;
use crate::chrono_calls::{timestamp_or_epoch, utc_timestamp_or_epoch};
use crate::search::options::{Category, MovieOptions, SearchOptions, SortColumn};
use crate::search::piratebay::{properties_from_name, properties_of_name, views};
use crate::search::provider::Provider;
use crate::search::torrent::{format_magnet, magnet_link, Torrent, TorrentView};
use crate::search::trackers::{yts_tracker_list, yts_trackers};
use crate::text::{push_all};
use crate::url_calls::{call_append_pair, call_push_segment, url_with_pair, url_with_segment};

verus! {

/// One torrent of a YTS movie, as the API describes it.
#[derive(Debug)]
pub struct YtsTorrentResponse {
    pub size_bytes: u64,
    pub peers: usize,
    pub seeds: usize,
    pub date_uploaded_unix: i64,
    pub quality: String,
    pub hash: String,
    pub video_codec: String,
    pub source: String,
}

/// A YTS movie and its torrents.
#[derive(Debug)]
pub struct YtsMovie {
    pub title_long: String,
    pub imdb_code: String,
    pub torrents: Option<Vec<YtsTorrentResponse>>,
}

/// One torrent with the title and IMDb id of its movie.
#[derive(Debug)]
pub struct YtsTorrent {
    pub data: YtsTorrentResponse,
    pub title: String,
    pub imdb: String,
}

pub const YTS_API: &'static str = "https://yts.mx/api/v2";

/// The name given to a YTS torrent: `"title [quality] [source] codec"`.
pub open spec fn yts_name(title: Seq<char>, data: YtsTorrentResponse) -> Seq<char> {
    title + " ["@ + data.quality@ + "] ["@ + data.source@ + "] "@ + data.video_codec@
}

/// The torrent that a YTS torrent of the movie `title` (IMDb id `imdb`) describes.
pub open spec fn from_yts_spec(data: YtsTorrentResponse, title: Seq<char>, imdb: Seq<char>) -> TorrentView {
    let name = yts_name(title, data);
    TorrentView {
        added: timestamp_or_epoch(data.date_uploaded_unix as int) as i64,
        category: "movies"@,
        file_count: 0,
        id: data.hash@,
        info_hash: data.hash@,
        leechers: data.peers,
        name,
        seeders: data.seeds,
        size: data.size_bytes,
        provider: seq![Provider::Yts],
        magnet: magnet_link(data.hash@, name, yts_tracker_list()),
        movie_properties: Some(properties_from_name(imdb, name)),
    }
}

/// The torrents of one movie, in order.
pub open spec fn movie_torrents_spec(m: YtsMovie) -> Seq<TorrentView> {
    match m.torrents {
        Some(ts) => ts@.map_values(
            |d: YtsTorrentResponse| from_yts_spec(d, m.title_long@, m.imdb_code@),
        ),
        None => Seq::empty(),
    }
}

/// The torrents of a list of movies, movie by movie.
pub open spec fn movies_torrents_spec(ms: Seq<YtsMovie>) -> Seq<TorrentView>
    decreases ms.len(),
{
    if ms.len() == 0 {
        Seq::empty()
    } else {
        movies_torrents_spec(ms.drop_last()) + movie_torrents_spec(ms.last())
    }
}

/// The sort names of YTS (`""` where YTS cannot sort).
pub open spec fn yts_sort(column: SortColumn) -> Seq<char> {
    match column {
        SortColumn::Added => "date_added"@,
        SortColumn::Leechers => "peers"@,
        SortColumn::Size => ""@,
        SortColumn::Seeders => "seeds"@,
    }
}

impl Torrent {
    /// The torrent that a YTS torrent describes.
    pub fn from_yts(value: YtsTorrent) -> (r: Torrent)
        ensures
            r@ == from_yts_spec(value.data, value.title@, value.imdb@),
    {
        let YtsTorrent { data, title, imdb } = value;
        let ghost data_copy = data;
        let mut name = title;
        push_all(&mut name, " [");
        push_all(&mut name, data.quality.as_str());
        push_all(&mut name, "] [");
        push_all(&mut name, data.source.as_str());
        push_all(&mut name, "] ");
        push_all(&mut name, data.video_codec.as_str());
        let added = utc_timestamp_or_epoch(data.date_uploaded_unix);
        let trackers = yts_trackers();
        let magnet = format_magnet(data.hash.as_str(), name.as_str(), trackers.as_slice());
        let props = properties_of_name(imdb, name.as_str());
        let mut provider = Vec::new();
        provider.push(Provider::Yts);
        let id = data.hash.clone();
        Torrent {
            added,
            category: "movies".to_owned(),
            file_count: 0,
            id,
            info_hash: data.hash,
            leechers: data.peers,
            name,
            seeders: data.seeds,
            size: data.size_bytes,
            provider,
            magnet,
            movie_properties: Some(props),
        }
    }
}

pub struct Yts {}

impl Yts {
    /// YTS's name for a sort column.
    pub fn format_sort(column: &SortColumn) -> (r: &'static str)
        ensures
            r@ == yts_sort(*column),
    {
        match column {
            SortColumn::Added => "date_added",
            SortColumn::Leechers => "peers",
            SortColumn::Size => "",
            SortColumn::Seeders => "seeds",
        }
    }

    /// Whether YTS, which only lists movies, is asked for a category.
    pub fn serves_category(category: &Category) -> (r: bool)
        ensures
            r == (*category == Category::All || *category == Category::Video),
    {
        match category {
            Category::All | Category::Video => true,
            _ => false,
        }
    }

    /// The API URL of a search: `list_movies.json` with the query, sort and order.
    pub fn format_search_url(search_options: &SearchOptions) -> (r: String)
        ensures
            r@ == url_with_pair(
                url_with_pair(
                    url_with_pair(
                        url_with_segment(YTS_API@, "list_movies.json"@),
                        "query_term"@,
                        search_options.spec_query(),
                    ),
                    "sort_by"@,
                    yts_sort(search_options.spec_sort()),
                ),
                "order_by"@,
                search_options.spec_order().text(),
            ),
    {
        let url = call_push_segment(YTS_API, "list_movies.json");
        let url = call_append_pair(url.as_str(), "query_term", search_options.query());
        let url = call_append_pair(url.as_str(), "sort_by", Yts::format_sort(search_options.sort()));
        let order = search_options.order().to_string();
        call_append_pair(url.as_str(), "order_by", order.as_str())
    }

    /// The API URL of a movie: `movie_details.json` with the IMDb id.
    pub fn format_movie_url(movie_options: &MovieOptions) -> (r: String)
        ensures
            r@ == url_with_pair(
                url_with_segment(YTS_API@, "movie_details.json"@),
                "imdb_id"@,
                movie_options.spec_imdb(),
            ),
    {
        let url = call_push_segment(YTS_API, "movie_details.json");
        call_append_pair(url.as_str(), "imdb_id", movie_options.imdb())
    }

    /// Each torrent of a movie, with the movie's title and IMDb id.
    pub fn movie_to_torrents(movie: YtsMovie) -> (r: Vec<YtsTorrent>)
        ensures
            r@.map_values(|t: YtsTorrent| from_yts_spec(t.data, t.title@, t.imdb@))
                == movie_torrents_spec(movie),
    {
        let ghost spec_movie = movie;
        let YtsMovie { title_long, imdb_code, torrents } = movie;
        let mut r: Vec<YtsTorrent> = Vec::new();
        match torrents {
            None => {
                assert(r@.map_values(|t: YtsTorrent| from_yts_spec(t.data, t.title@, t.imdb@))
                    =~= Seq::empty());
            },
            Some(ts) => {
                let ghost all = ts@;
                let mut rest = ts;
                while rest.len() > 0
                    invariant
                        all.len() == r@.len() + rest@.len(),
                        rest@ == all.skip(r@.len() as int),
                        r@.map_values(|t: YtsTorrent| from_yts_spec(t.data, t.title@, t.imdb@))
                            == all.take(r@.len() as int).map_values(
                            |d: YtsTorrentResponse| from_yts_spec(d, title_long@, imdb_code@),
                        ),
                    decreases rest.len(),
                {
                    let ghost k = r@.len() as int;
                    let ghost old_r = r@;
                    let d = rest.remove(0);
                    assert(d == all[k]);
                    let t = YtsTorrent { data: d, title: title_long.clone(), imdb: imdb_code.clone() };
                    r.push(t);
                    assert(rest@ == all.skip(k + 1));
                    assert forall|j: int| 0 <= j <= k implies r@.map_values(
                        |t: YtsTorrent| from_yts_spec(t.data, t.title@, t.imdb@),
                    )[j] == from_yts_spec(all[j], title_long@, imdb_code@) by {
                        if j < k {
                            assert(r@[j] == old_r[j]);
                            assert(old_r.map_values(
                                |t: YtsTorrent| from_yts_spec(t.data, t.title@, t.imdb@),
                            )[j] == all.take(k).map_values(
                                |d: YtsTorrentResponse| from_yts_spec(d, title_long@, imdb_code@),
                            )[j]);
                        } else {
                            assert(r@[j] == t);
                        }
                    }
                    assert(r@.map_values(|t: YtsTorrent| from_yts_spec(t.data, t.title@, t.imdb@))
                        =~= all.take(k + 1).map_values(
                        |d: YtsTorrentResponse| from_yts_spec(d, title_long@, imdb_code@),
                    ));
                }
                assert(all.take(all.len() as int) == all);
            },
        }
        r
    }

    /// The torrents of a search's movies, movie by movie; none when the API listed no movies.
    pub fn torrents_from_movies(movies: Option<Vec<YtsMovie>>) -> (r: Vec<Torrent>)
        ensures
            views(r@) == match movies {
                Some(ms) => movies_torrents_spec(ms@),
                None => Seq::empty(),
            },
    {
        let mut r: Vec<Torrent> = Vec::new();
        let ms = match movies {
            Some(ms) => ms,
            None => {
                assert(views(r@) =~= Seq::empty());
                return r;
            },
        };
        let ghost all = ms@;
        let mut rest = ms;
        let mut done: usize = 0;
        let total = rest.len();
        assert(views(r@) =~= movies_torrents_spec(all.take(0)));
        while rest.len() > 0
            invariant
                total == all.len(),
                all.len() == done + rest@.len(),
                rest@ == all.skip(done as int),
                views(r@) == movies_torrents_spec(all.take(done as int)),
            decreases rest.len(),
        {
            let m = rest.remove(0);
            assert(m == all[done as int]);
            assert(rest@ == all.skip(done + 1));
            assert(all.take(done + 1).drop_last() == all.take(done as int));
            assert(all.take(done + 1).last() == all[done as int]);
            let ts = Yts::torrents_of_movie(m);
            let ghost before = views(r@);
            let ghost add = views(ts@);
            assert(before + add == movies_torrents_spec(all.take(done + 1)));
            let mut ts = ts;
            let tlen = ts.len();
            let mut k: usize = 0;
            assert(add.skip(0) == add);
            assert(add.take(0) =~= Seq::<TorrentView>::empty());
            assert(before + add.take(0) =~= before);
            while ts.len() > 0
                invariant
                    total == all.len(),
                    all.len() == done + 1 + rest@.len(),
                    rest@ == all.skip(done + 1),
                    before + add == movies_torrents_spec(all.take(done + 1)),
                    add.len() == k + ts@.len(),
                    tlen == add.len(),
                    views(ts@) == add.skip(k as int),
                    views(r@) == before + add.take(k as int),
                decreases ts.len(),
            {
                let ghost old_ts = ts@;
                let ghost old_r = r@;
                let t = ts.remove(0);
                assert(t == old_ts[0]);
                assert(views(old_ts)[0] == add.skip(k as int)[0]);
                assert(t@ == add[k as int]);
                assert(views(old_r) == before + add.take(k as int));
                r.push(t);
                assert(r@.len() == old_r.len() + 1);
                assert forall|j: int| 0 <= j < views(r@).len() implies views(r@)[j] == (before
                    + add.take(k + 1))[j] by {
                    if j < old_r.len() {
                        assert(r@[j] == old_r[j]);
                        assert(views(old_r)[j] == (before + add.take(k as int))[j]);
                        if j < before.len() {
                        } else {
                            assert(add.take(k as int)[j - before.len()] == add[j - before.len()]);
                        }
                    } else {
                        assert(r@[j] == t);
                        assert(views(old_r).len() == before.len() + k);
                        assert((before + add.take(k + 1))[j] == add[k as int]);
                    }
                }
                assert(views(r@) =~= before + add.take(k + 1));
                assert forall|j: int| 0 <= j < ts@.len() implies views(ts@)[j] == add.skip(
                    k + 1,
                )[j] by {
                    assert(ts@[j] == old_ts[j + 1]);
                    assert(views(old_ts)[j + 1] == add.skip(k as int)[j + 1]);
                }
                assert(views(ts@) =~= add.skip(k + 1));
                k = k + 1;
            }
            assert(add.take(k as int) == add);
            done = done + 1;
        }
        assert(all.take(all.len() as int) == all);
        r
    }

    /// The torrents of one movie.
    pub fn torrents_of_movie(movie: YtsMovie) -> (r: Vec<Torrent>)
        ensures
            views(r@) == movie_torrents_spec(movie),
    {
        let ghost spec_movie = movie;
        let ts = Yts::movie_to_torrents(movie);
        let ghost all = ts@;
        let mut rest = ts;
        let mut r: Vec<Torrent> = Vec::new();
        while rest.len() > 0
            invariant
                all.len() == r@.len() + rest@.len(),
                rest@ == all.skip(r@.len() as int),
                views(r@) == all.take(r@.len() as int).map_values(
                    |t: YtsTorrent| from_yts_spec(t.data, t.title@, t.imdb@),
                ),
            decreases rest.len(),
        {
            let ghost k = r@.len() as int;
            let ghost old_r = r@;
            let v = rest.remove(0);
            assert(v == all[k]);
            let t = Torrent::from_yts(v);
            r.push(t);
            assert(rest@ == all.skip(k + 1));
            assert forall|j: int| 0 <= j <= k implies views(r@)[j] == from_yts_spec(
                all[j].data,
                all[j].title@,
                all[j].imdb@,
            ) by {
                if j < k {
                    assert(r@[j] == old_r[j]);
                    assert(views(old_r)[j] == all.take(k).map_values(
                        |t: YtsTorrent| from_yts_spec(t.data, t.title@, t.imdb@),
                    )[j]);
                } else {
                    assert(r@[j] == t);
                }
            }
            assert(views(r@) =~= all.take(k + 1).map_values(
                |t: YtsTorrent| from_yts_spec(t.data, t.title@, t.imdb@),
            ));
        }
        assert(all.take(all.len() as int) == all);
        r
    }
}

} // verus!
