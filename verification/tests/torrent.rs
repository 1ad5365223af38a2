use torrent_api::search::movie::{Codec, MovieProperties, Quality, Source};
use torrent_api::search::provider::{movie_search_plan, search_plan, Provider};
use torrent_api::search::options::{Category, MovieOptions, Order, SearchOptions, SortColumn};
use torrent_api::search::torrent::{format_magnet, Torrent};

fn now() -> i64 {
    chrono::Utc::now().timestamp()
}

#[test]
fn torrent_test_merge() {
    let mut torrent1 = Torrent {
        added: now(),
        category: "1".into(),
        file_count: 1,
        id: "1".into(),
        info_hash: "1".into(),
        leechers: 1,
        name: "1".into(),
        seeders: 1,
        size: 1,
        provider: vec![Provider::PirateBay],
        magnet: "1".into(),
        movie_properties: None,
    };

    let torrent2 = Torrent {
        added: now(),
        category: "2".into(),
        file_count: 2,
        id: "2".into(),
        info_hash: "2".into(),
        leechers: 2,
        name: "2".into(),
        seeders: 2,
        size: 2,
        provider: vec![Provider::Yts, Provider::PirateBay],
        magnet: "2".into(),
        movie_properties: Some(MovieProperties::new(
            "2".into(),
            Quality::Unknown,
            Codec::Unknown,
            Source::Unknown,
        )),
    };

    torrent1.merge(torrent2);

    assert_eq!(torrent1.file_count, 1);
    assert_eq!(torrent1.id, "1");
    assert_eq!(torrent1.leechers, 1);
    assert_eq!(torrent1.name, "1");
    assert_eq!(torrent1.seeders, 1);
    assert_eq!(torrent1.size, 1);
    assert_eq!(torrent1.provider, vec![Provider::PirateBay, Provider::Yts]);
    assert_eq!(torrent1.magnet, "1");
    assert_eq!(
        torrent1.movie_properties.unwrap(),
        MovieProperties::new("2".into(), Quality::Unknown, Codec::Unknown, Source::Unknown)
    );
}

fn blank(hash: &str) -> Torrent {
    Torrent {
        added: 0,
        category: String::new(),
        file_count: 0,
        id: String::new(),
        info_hash: hash.into(),
        leechers: 0,
        name: String::new(),
        seeders: 0,
        size: 0,
        provider: vec![],
        magnet: String::new(),
        movie_properties: None,
    }
}

#[test]
fn merge_fills_blank_torrent() {
    let mut a = blank("A");
    let mut b = blank("B");
    b.added = 5;
    b.name = "n".into();
    b.seeders = 3;
    b.provider = vec![Provider::BitSearch];
    a.merge(b);
    assert_eq!(a.added, 5);
    assert_eq!(a.name, "n");
    assert_eq!(a.seeders, 3);
    assert_eq!(a.info_hash, "A");
    assert_eq!(a.provider, vec![Provider::BitSearch]);
}

#[test]
fn merge_with_itself_keeps_torrent() {
    let make = || {
        let mut t = blank("H");
        t.name = "n".into();
        t.provider = vec![Provider::Yts, Provider::X1337];
        t.movie_properties = Some(MovieProperties::new("tt".into(), Quality::P720, Codec::AVC, Source::Cam));
        t
    };
    let mut a = make();
    a.merge(make());
    let b = make();
    assert_eq!(a.name, b.name);
    assert_eq!(a.provider, b.provider);
    assert_eq!(a.movie_properties, b.movie_properties);
}

#[test]
fn magnet_link_format() {
    let link = format_magnet("ABC", "The Matrix (1999)", &["udp://a.b:1/announce", "http://c"]);
    assert_eq!(
        link,
        "magnet:?xt=urn:btih:ABC&tr=udp%3A%2F%2Fa.b%3A1%2Fannounce&tr=http%3A%2F%2Fc&dn=The%20Matrix%20%281999%29"
    );
}

#[test]
fn magnet_link_encodes_utf8() {
    assert_eq!(format_magnet("H", "é", &[]), "magnet:?xt=urn:btih:H&tr=&dn=%C3%A9");
}

#[test]
fn plans_pick_providers() {
    let empty = SearchOptions::new(String::new(), Category::All, SortColumn::Seeders, Order::Descending);
    assert!(search_plan(&empty, &vec![]).is_empty());
    let query = SearchOptions::new("q".into(), Category::All, SortColumn::Seeders, Order::Descending);
    assert_eq!(search_plan(&query, &vec![]), Provider::all());
    assert_eq!(
        search_plan(&query, &vec![Provider::Yts, Provider::Yts, Provider::X1337]),
        vec![Provider::Yts, Provider::X1337]
    );
    let movie = MovieOptions::new("tt1".into(), None, SortColumn::Seeders, Order::Descending);
    assert_eq!(
        movie_search_plan(&movie, &vec![]),
        vec![Provider::PirateBay, Provider::Yts, Provider::BitSearch]
    );
    let no_imdb = MovieOptions::new(String::new(), None, SortColumn::Seeders, Order::Descending);
    assert!(movie_search_plan(&no_imdb, &vec![Provider::Yts]).is_empty());
}
