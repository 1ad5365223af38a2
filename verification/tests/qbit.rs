use torrent_api::qbit::error::{Error, ErrorKind};
use torrent_api::qbit::json::{merge_json, JsonValue};
use torrent_api::qbit::models::{AddTorrentOptions, Category, TorrentState};
use torrent_api::qbit::partial::PartialTorrent;
use torrent_api::qbit::requests::{
    add_outcome, category_action, check_category_name, is_media_extension, listing_error,
    options_with_urls,
    remote_to_local, request_outcome, session_id_of_cookie, set_category_outcome, CategoryAction,
    SerializeHashes,
};
use torrent_api::qbit::sync::{SyncMainData, SyncState};
use torrent_api::qbit::wait::{next_wait_step, WaitStep, PROGRESS_COMPLETE};

fn partial(progress: f64, eta: usize, state: TorrentState) -> PartialTorrent {
    PartialTorrent {
        amount_left: None,
        category: None,
        completed: None,
        content_path: None,
        dlspeed: None,
        downloaded: None,
        downloaded_session: None,
        eta: Some(eta),
        name: None,
        progress: Some(progress.to_bits()),
        size: None,
        state: Some(state),
    }
}

#[test]
fn wait_steps() {
    assert_eq!(PROGRESS_COMPLETE, 1.0f64.to_bits());
    assert_eq!(next_wait_step(None), WaitStep::NotFound);
    assert_eq!(next_wait_step(Some(&partial(1.0, 0, TorrentState::Uploading))), WaitStep::Complete);
    assert_eq!(next_wait_step(Some(&partial(0.2, 500, TorrentState::MetaDL))), WaitStep::Sleep(5));
    assert_eq!(next_wait_step(Some(&partial(0.2, 8640000, TorrentState::StalledDL))), WaitStep::NotFound);
    assert_eq!(next_wait_step(Some(&partial(0.2, 500, TorrentState::Downloading))), WaitStep::Sleep(60));
    assert_eq!(next_wait_step(Some(&partial(0.2, 0, TorrentState::Downloading))), WaitStep::Sleep(1));
    assert_eq!(next_wait_step(Some(&partial(0.2, 30, TorrentState::Downloading))), WaitStep::Sleep(30));
}

#[test]
fn active_states() {
    assert!(TorrentState::Downloading.is_active());
    assert!(TorrentState::Unknown.is_active());
    assert!(!TorrentState::PausedUP.is_active());
}

#[test]
fn partial_merge_takes_newer_fields() {
    let mut a = partial(0.5, 10, TorrentState::Downloading);
    a.name = Some("old".into());
    let mut b = partial(0.75, 5, TorrentState::Downloading);
    b.state = None;
    b.content_path = Some("/downloads/x".into());
    a.merge(b);
    assert_eq!(a.progress, Some(0.75f64.to_bits()));
    assert_eq!(a.eta, Some(5));
    assert_eq!(a.state, Some(TorrentState::Downloading));
    assert_eq!(a.name, Some("old".into()));
    assert_eq!(a.content_path, Some("/downloads/x".into()));
}

fn obj(entries: Vec<(&str, JsonValue)>) -> JsonValue {
    JsonValue::Object(entries.into_iter().map(|(k, v)| (k.to_string(), v)).collect())
}

fn num(n: &str) -> JsonValue {
    JsonValue::Number(n.into())
}

fn keys_of(v: &JsonValue) -> Vec<String> {
    match v {
        JsonValue::Object(e) => e.iter().map(|(k, _)| k.clone()).collect(),
        _ => vec![],
    }
}

#[test]
fn json_merges_objects_by_key() {
    let a = obj(vec![("a", num("1")), ("b", obj(vec![("x", num("1")), ("y", num("2"))]))]);
    let b = obj(vec![("b", obj(vec![("y", num("3")), ("z", num("4"))])), ("c", JsonValue::Null)]);
    let m = merge_json(a, b);
    assert_eq!(keys_of(&m), vec!["a", "b", "c"]);
    match &m {
        JsonValue::Object(e) => {
            assert_eq!(keys_of(&e[1].1), vec!["x", "y", "z"]);
            match &e[1].1 {
                JsonValue::Object(inner) => match &inner[1].1 {
                    JsonValue::Number(n) => assert_eq!(n, "3"),
                    _ => panic!("not a number"),
                },
                _ => panic!("not an object"),
            }
        },
        _ => panic!("not an object"),
    }
    // anything but an object replaces
    assert!(matches!(merge_json(obj(vec![]), JsonValue::Bool(true)), JsonValue::Bool(true)));
}

fn sync(rid: usize, full: bool, torrents: Vec<(&str, JsonValue)>, removed: Vec<&str>) -> SyncMainData {
    SyncMainData {
        rid,
        full_update: full,
        torrents: torrents.into_iter().map(|(k, v)| (k.to_string(), v)).collect(),
        torrents_removed: removed.into_iter().map(String::from).collect(),
        categories: vec![],
        categories_removed: vec![],
    }
}

#[test]
fn sync_state_takes_reports() {
    let mut state = SyncState::new();
    state.apply(sync(1, true, vec![("h1", obj(vec![("progress", num("0"))])), ("h2", JsonValue::Null)], vec![]));
    assert_eq!(state.rid, 1);
    state.apply(sync(2, false, vec![("h3", JsonValue::Null), ("h1", obj(vec![("eta", num("5"))]))], vec!["h2"]));
    assert_eq!(state.rid, 2);
    let data = state.main_data.as_ref().unwrap();
    let keys: Vec<&str> = data.torrents.iter().map(|(k, _)| k.as_str()).collect();
    assert_eq!(keys, vec!["h1", "h3"]);
    assert_eq!(keys_of(&data.torrents[0].1), vec!["progress", "eta"]);
}

#[test]
fn request_outcomes() {
    assert!(add_outcome("Ok.").is_ok());
    let e = add_outcome("Fails.").unwrap_err();
    assert_eq!(e.kind(), &ErrorKind::TorrentAddError);
    assert!(request_outcome(true, String::new()).is_ok());
    assert_eq!(request_outcome(false, "nope".into()).unwrap_err().message(), "nope");
    assert_eq!(
        check_category_name("").unwrap_err().kind(),
        &ErrorKind::BadParameters("name".into())
    );
    assert!(check_category_name("movies").is_ok());
    assert_eq!(
        set_category_outcome(false, "tv").unwrap_err().message(),
        "Category: \"tv\" does not exist"
    );
    let e = listing_error("sort parameter is invalid".into());
    assert_eq!(e.kind(), &ErrorKind::BadParameters("sort".into()));
    assert_eq!(listing_error("boom".into()).kind(), &ErrorKind::RequestError);
}

#[test]
fn category_actions() {
    let cats = vec![
        Category { name: "movies".into(), save_path: "/m".into() },
        Category { name: "tv".into(), save_path: "/t".into() },
    ];
    assert_eq!(category_action(&cats, "music", "/x"), CategoryAction::Add);
    assert_eq!(category_action(&cats, "tv", "/t2"), CategoryAction::Edit);
    assert_eq!(category_action(&cats, "movies", "/m"), CategoryAction::Keep);
}

#[test]
fn hashes_and_paths() {
    let hashes = vec!["a".to_string(), "b".to_string()];
    assert_eq!(hashes.serialize_hashes(), Some("a|b".to_string()));
    assert_eq!(None::<Vec<String>>.serialize_hashes(), None);
    assert_eq!(remote_to_local("/downloads/film"), "/downloads/film");
    assert_eq!(session_id_of_cookie("SID=abc; HttpOnly; path=/"), "SID=abc");
    let options = options_with_urls(&vec!["u1".into(), "u2".into()], AddTorrentOptions::default().paused(true));
    assert_eq!(options.urls, "u1\nu2");
    assert_eq!(options.paused, Some(true));
}

#[test]
fn error_texts() {
    let e = Error::new(ErrorKind::BadParameters("x".into()), "m".into());
    assert_eq!(e.to_string(), "<Bad Parameter: x>: m");
    let login = Error::from_http(Some(401), "unauthorized".into());
    assert_eq!(login.kind(), &ErrorKind::IncorrectLogin);
    assert_eq!(login.message(), "Incorrect login");
    let other = Error::from_http(Some(500), "server".into());
    assert_eq!(other.kind(), &ErrorKind::HttpRequestError("server".into()));
    assert_eq!(Error::from_serde("eof".into()).to_string(), "<SerdeError: eof>: Serde Error");
}

#[test]
fn media_extensions() {
    assert!(is_media_extension("mkv"));
    assert!(is_media_extension("mp4"));
    assert!(!is_media_extension("MKV"));
    assert!(!is_media_extension("nfo"));
    assert!(!is_media_extension(""));
}
