use torrent_api::search::bitsearch::BitSearch;
use torrent_api::search::error::ErrorKind;
use torrent_api::search::options::{Category, MovieOptions, Order, SearchOptions, SortColumn};
use torrent_api::search::piratebay::{PirateBay, PirateBayTorrent};
use torrent_api::search::provider::Provider;
use torrent_api::search::torrent::Torrent;
use torrent_api::search::x1337::X1137;
use torrent_api::search::yts::{Yts, YtsMovie, YtsTorrentResponse};

#[test]
fn bitsearch_test_format_url() {
    let search_options = SearchOptions::new(
        "the matrix".to_string(),
        Category::Video,
        SortColumn::Size,
        Order::Ascending,
    );

    let mut mirrors = BitSearch::round_robin();
    let url = BitSearch::format_url(&mut mirrors, &search_options);

    assert!(url.as_str().ends_with("search?q=the+matrix&sort=size&order=asc&category=1"));
}

#[test]
fn test_expand_number() {
    assert_eq!(BitSearch::expand_number("1.2K"), "1200");
    assert_eq!(BitSearch::expand_number("1.2M"), "1200000");
    assert_eq!(BitSearch::expand_number("1.2B"), "1200000000");
}

#[test]
fn expand_number_plain() {
    assert_eq!(BitSearch::expand_number("42"), "42");
}

#[test]
fn bitsearch_test_format_category() {
    assert_eq!(BitSearch::format_category(&Category::All), "");
    assert_eq!(BitSearch::format_category(&Category::Applications), "5");
    assert_eq!(BitSearch::format_category(&Category::Audio), "7");
    assert_eq!(BitSearch::format_category(&Category::Video), "1");
    assert_eq!(BitSearch::format_category(&Category::Games), "6");
    assert_eq!(BitSearch::format_category(&Category::Other), "");
}

#[test]
fn bitsearch_test_format_sort() {
    assert_eq!(BitSearch::format_sort(&SortColumn::Size), "size");
    assert_eq!(BitSearch::format_sort(&SortColumn::Seeders), "seeders");
    assert_eq!(BitSearch::format_sort(&SortColumn::Leechers), "leechers");
    assert_eq!(BitSearch::format_sort(&SortColumn::Added), "date");
}

#[test]
fn bitsearch_mirrors_alternate() {
    let mut mirrors = BitSearch::round_robin();
    assert_eq!(BitSearch::get_url(&mut mirrors), "https://solidtorrents.to/search");
    assert_eq!(BitSearch::get_url(&mut mirrors), "https://bitsearch.to/search");
    assert_eq!(BitSearch::get_url(&mut mirrors), "https://solidtorrents.to/search");
}

const BITSEARCH_PAGE: &str = r#"<html><body><ul>
<li class="search-result">
  <h5><a href="/torrent/1">The Matrix 1999 1080p BluRay x264</a></h5>
  <div class="category">Movies</div>
  <div class="stats"><div>3</div><div>12 MB</div><div>1.2K</div><div>34</div><div>Jan 5, 2021</div></div>
  <a class="dl-magnet" href="magnet:?xt=urn:btih:ABCDEF0123&amp;dn=%5BBitsearch.to%5D+The+Matrix">m</a>
</li>
<li class="search-result">
  <h5><a href="/torrent/2">No size</a></h5>
  <div class="stats"><div>3</div></div>
</li>
</ul></body></html>"#;

#[test]
fn bitsearch_reads_page() {
    let torrents = BitSearch::torrents_from_page(BITSEARCH_PAGE).unwrap();
    assert_eq!(torrents.len(), 1);
    let t = &torrents[0];
    assert_eq!(t.name, "The Matrix 1999 1080p BluRay x264");
    assert_eq!(t.category, "Movies");
    assert_eq!(t.size, 12_000_000);
    assert_eq!(t.seeders, 1200);
    assert_eq!(t.leechers, 34);
    assert_eq!(t.info_hash, "ABCDEF0123");
    assert_eq!(t.id, "ABCDEF0123");
    assert_eq!(t.magnet, "magnet:?xt=urn:btih:ABCDEF0123&dn=The+Matrix");
    assert_eq!(t.added, 1609804800);
    assert_eq!(t.provider, vec![Provider::BitSearch]);
}

#[test]
fn bitsearch_row_without_magnet_fails() {
    let page = r#"<div class="search-result"><h5><a>X</a></h5>
      <div class="stats"><div>1</div><div>1 MB</div><div>1</div><div>1</div><div>Jan 1, 2020</div></div></div>"#;
    let err = BitSearch::torrents_from_page(page).unwrap_err();
    assert_eq!(err.kind(), &ErrorKind::ScrapingError);
    assert_eq!(err.message(), "Could not find the magnet link");
}

#[test]
fn bitsearch_bad_seeders_fail() {
    let page = r#"<div class="search-result"><h5><a>X</a></h5>
      <div class="stats"><div>1</div><div>1 MB</div><div>lots</div><div>1</div><div>Jan 1, 2020</div></div>
      <a class="dl-magnet" href="magnet:?xt=urn:btih:AB12">m</a></div>"#;
    let err = BitSearch::torrents_from_page(page).unwrap_err();
    assert_eq!(err.message(), "Seeders is not a number");
}

#[test]
fn bitsearch_movie_search_needs_title() {
    let without = MovieOptions::new("tt1".into(), None, SortColumn::Seeders, Order::Ascending);
    assert!(BitSearch::movie_search_options(&without).is_none());
    let with = MovieOptions::new("tt1".into(), Some("The Matrix".into()), SortColumn::Size, Order::Ascending);
    let options = BitSearch::movie_search_options(&with).unwrap();
    assert_eq!(options.query(), "The Matrix");
    assert_eq!(options.category(), &Category::Video);
    assert_eq!(options.sort(), &SortColumn::Size);
}

#[test]
fn piratebay_test_format_url() {
    let search_options = SearchOptions::new(
        "query".into(),
        Category::Applications,
        SortColumn::Seeders,
        Order::Ascending,
    );

    let url = PirateBay::format_url(&search_options);
    assert_eq!(url.as_str(), "https://apibay.org/q.php?q=query&cat=300");
}

#[test]
fn piratebay_test_format_movie_url() {
    let movie_options = MovieOptions::new(
        "tt1234567".into(),
        None,
        SortColumn::Seeders,
        Order::Ascending,
    );

    let url = PirateBay::format_movie_url(&movie_options);
    assert_eq!(url.as_str(), "https://apibay.org/q.php?q=tt1234567");
}

#[test]
fn piratebay_test_format_category() {
    assert_eq!(PirateBay::format_category(&Category::All), "");
    assert_eq!(PirateBay::format_category(&Category::Applications), "300");
    assert_eq!(PirateBay::format_category(&Category::Audio), "100");
    assert_eq!(PirateBay::format_category(&Category::Video), "200");
    assert_eq!(PirateBay::format_category(&Category::Games), "400");
    assert_eq!(PirateBay::format_category(&Category::Other), "600");
}

fn pirate_bay_result(id: &str, name: &str, imdb: &str) -> PirateBayTorrent {
    PirateBayTorrent {
        id: id.into(),
        name: name.into(),
        info_hash: "HASH".into(),
        leechers: "7".into(),
        seeders: "+12".into(),
        num_files: "3".into(),
        size: "1024".into(),
        username: "user".into(),
        added: "1609804800".into(),
        status: "vip".into(),
        category: "207".into(),
        imdb: imdb.into(),
    }
}

#[test]
fn piratebay_result_to_torrent() {
    let t = Torrent::from_pirate_bay(pirate_bay_result("9", "The.Matrix.1999.720p.x264", "tt0133093"));
    assert_eq!(t.added, 1609804800);
    assert_eq!(t.category, "207");
    assert_eq!(t.file_count, 3);
    assert_eq!(t.id, "9");
    assert_eq!(t.leechers, 7);
    assert_eq!(t.seeders, 12);
    assert_eq!(t.size, 1024);
    assert_eq!(t.provider, vec![Provider::PirateBay]);
    assert!(t.magnet.starts_with("magnet:?xt=urn:btih:HASH&tr=udp%3A%2F%2Ftracker.coppersurfer.tk%3A6969%2Fannounce&tr="));
    assert!(t.magnet.ends_with("&dn=The.Matrix.1999.720p.x264"));
    let props = t.movie_properties.unwrap();
    assert_eq!(props.imdb(), &Some("tt0133093".to_string()));
    assert_eq!(props.quality(), &torrent_api::search::movie::Quality::P720);
}

#[test]
fn piratebay_unreadable_numbers_are_zero() {
    let mut r = pirate_bay_result("9", "x", "");
    r.seeders = "-1".into();
    r.added = "soon".into();
    let t = Torrent::from_pirate_bay(r);
    assert_eq!(t.seeders, 0);
    assert_eq!(t.added, 0);
    assert_eq!(t.movie_properties.unwrap().imdb(), &None);
}

#[test]
fn piratebay_placeholder_means_no_results() {
    let mut r = pirate_bay_result("0", "No results returned", "");
    r.size = "0".into();
    r.category = "0".into();
    r.num_files = "0".into();
    r.added = "0".into();
    assert!(PirateBay::is_empty_torrent(&r));
    assert!(PirateBay::torrents_from_results(vec![r]).is_empty());
}

#[test]
fn piratebay_movie_results_keep_imdb() {
    let results = vec![
        pirate_bay_result("1", "A 2000", "tt1"),
        pirate_bay_result("2", "B 2000", "tt2"),
        pirate_bay_result("3", "C 2000", "tt1"),
    ];
    let torrents = PirateBay::torrents_from_results(results);
    assert_eq!(torrents.len(), 3);
    let kept = PirateBay::retain_movie(torrents, "tt1");
    let ids: Vec<&str> = kept.iter().map(|t| t.id.as_str()).collect();
    assert_eq!(ids, vec!["1", "3"]);
}

#[test]
fn yts_test_format_sort() {
    assert_eq!(Yts::format_sort(&SortColumn::Added), "date_added");
    assert_eq!(Yts::format_sort(&SortColumn::Leechers), "peers");
    assert_eq!(Yts::format_sort(&SortColumn::Size), "");
    assert_eq!(Yts::format_sort(&SortColumn::Seeders), "seeds");
}

#[test]
fn test_format_search_url() {
    let search_options = SearchOptions::new(
        "query".into(),
        Category::Applications,
        SortColumn::Seeders,
        Order::Ascending,
    );

    let url = Yts::format_search_url(&search_options);
    assert_eq!(
        url.as_str(),
        "https://yts.mx/api/v2/list_movies.json?query_term=query&sort_by=seeds&order_by=asc"
    );
}

#[test]
fn yts_test_format_movie_url() {
    let movie_options = MovieOptions::new(
        "tt1234567".into(),
        None,
        SortColumn::Seeders,
        Order::Ascending,
    );

    let url = Yts::format_movie_url(&movie_options);

    assert_eq!(
        url.as_str(),
        "https://yts.mx/api/v2/movie_details.json?imdb_id=tt1234567"
    );
}

fn yts_torrent(hash: &str, quality: &str) -> YtsTorrentResponse {
    YtsTorrentResponse {
        size_bytes: 5000,
        peers: 4,
        seeds: 40,
        date_uploaded_unix: 1609804800,
        quality: quality.into(),
        hash: hash.into(),
        video_codec: "x264".into(),
        source: "bluray".into(),
    }
}

#[test]
fn yts_movies_to_torrents() {
    let movies = vec![
        YtsMovie {
            title_long: "The Matrix (1999)".into(),
            imdb_code: "tt0133093".into(),
            torrents: Some(vec![yts_torrent("H1", "720p"), yts_torrent("H2", "1080p")]),
        },
        YtsMovie { title_long: "Empty (2000)".into(), imdb_code: "tt2".into(), torrents: None },
    ];
    let torrents = Yts::torrents_from_movies(Some(movies));
    assert_eq!(torrents.len(), 2);
    assert_eq!(torrents[0].name, "The Matrix (1999) [720p] [bluray] x264");
    assert_eq!(torrents[0].id, "H1");
    assert_eq!(torrents[0].category, "movies");
    assert_eq!(torrents[0].seeders, 40);
    assert_eq!(torrents[0].leechers, 4);
    assert_eq!(torrents[1].info_hash, "H2");
    assert_eq!(torrents[1].provider, vec![Provider::Yts]);
    let props = torrents[1].movie_properties.as_ref().unwrap();
    assert_eq!(props.quality(), &torrent_api::search::movie::Quality::P1080);
    assert!(Yts::torrents_from_movies(None).is_empty());
}

#[test]
fn yts_serves_movies_only() {
    assert!(Yts::serves_category(&Category::All));
    assert!(Yts::serves_category(&Category::Video));
    assert!(!Yts::serves_category(&Category::Games));
}

#[test]
fn x1337_path() {
    let options = SearchOptions::new("matrix".into(), Category::Video, SortColumn::Added, Order::Descending);
    assert_eq!(X1137::format_path(&options), "sort-category-search/matrix/Movies/time/desc/1/");
    let all = SearchOptions::new("matrix".into(), Category::All, SortColumn::Seeders, Order::Ascending);
    assert_eq!(X1137::format_path(&all), "sort-search/matrix/seeders/asc/1/");
    let mut mirrors = X1137::round_robin();
    assert_eq!(
        X1137::format_url(&mut mirrors, &all),
        "https://1337x.to/sort-search/matrix/seeders/asc/1/"
    );
}

const X1337_PAGE: &str = r#"<html><body><table><tbody><tr>
<td class="coll-1 name"><a href="/sub/1/" class="icon">i</a><a href="/torrent/5512345/The-Matrix-1999/">The Matrix 1999</a></td>
<td class="coll-2 seeds">120</td><td class="coll-3 leeches">30</td><td class="coll-date">Aug. 21st '21</td><td class="coll-4 size">1.5 GB</td>
</tr></tbody></table></body></html>"#;

#[test]
fn x1337_reads_page() {
    let torrents = X1137::torrents_from_page(X1337_PAGE).unwrap();
    assert_eq!(torrents.len(), 1);
    let t = &torrents[0];
    assert_eq!(t.name, "The Matrix 1999");
    assert_eq!(t.id, "5512345");
    assert_eq!(t.seeders, 120);
    assert_eq!(t.leechers, 30);
    assert_eq!(t.size, 1_500_000_000);
    assert_eq!(t.added, 1629504000);
    assert_eq!(t.magnet, "unsupported");
    assert_eq!(t.provider, vec![Provider::X1337]);
}

#[test]
fn x1337_empty_page() {
    let no_results = r#"<div class="box-info"><div class="box-info-detail"><p>No results were returned.</p></div></div>"#;
    assert!(X1137::torrents_from_page(no_results).unwrap().is_empty());
    let err = X1137::torrents_from_page("<html><body>blocked</body></html>").unwrap_err();
    assert_eq!(err.message(), "Could not find the table in the html response");
}
