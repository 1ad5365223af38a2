use torrent_api::magnet::Magnet;

const TEST_MAGNET: &str = "magnet:?xt=urn:btih:1234567890&dn=Test&tr=udp://test.com";

#[test]
fn test_magnet_from_url() {
    let magnet = Magnet::from_url(TEST_MAGNET).unwrap();
    assert_eq!(magnet.display_name(), "Test");
    assert_eq!(magnet.info_hash(), "1234567890");
    assert_eq!(magnet.trackers(), &["udp://test.com"]);
}

#[test]
fn test_magnet_from_url_no_trackers() {
    let magnet = Magnet::from_url("magnet:?xt=urn:btih:1234567890&dn=Test").unwrap();
    assert_eq!(magnet.display_name(), "Test");
    assert_eq!(magnet.info_hash(), "1234567890");
    assert_eq!(magnet.trackers(), &Vec::<String>::new());
}

#[test]
fn test_magnet_from_url_no_display_name() {
    let magnet = Magnet::from_url("magnet:?xt=urn:btih:1234567890&tr=udp://test.com").unwrap();
    assert_eq!(magnet.display_name(), "Unknown");
    assert_eq!(magnet.info_hash(), "1234567890");
    assert_eq!(magnet.trackers(), &["udp://test.com"]);
}

#[test]
fn test_magnet_from_url_no_info_hash() {
    let magnet = Magnet::from_url("magnet:?dn=Test&tr=udp://test.com").unwrap();
    assert_eq!(magnet.display_name(), "Test");
    assert_eq!(magnet.info_hash(), "Unknown");
    assert_eq!(magnet.trackers(), &["udp://test.com"]);
}

#[test]
fn test_magnet_from_url_invalid() {
    assert!(Magnet::from_url("https://google.com").is_err());
}

#[test]
fn test_magnet_url() {
    let magnet = Magnet::from_url(TEST_MAGNET).unwrap();
    assert_eq!(magnet.url(), TEST_MAGNET);
}

#[test]
fn test_magnet_multiple_trackers() {
    let magnet = Magnet::from_url(
        "magnet:?xt=urn:btih:1234567890&dn=Test&tr=udp://test.com&tr=udp://test2.com",
    )
    .unwrap();
    assert_eq!(magnet.trackers(), &["udp://test.com", "udp://test2.com"]);
}

#[test]
fn magnet_errors() {
    assert_eq!(Magnet::from_url("https://google.com").unwrap_err(), "Not a magnet link");
    assert!(Magnet::from_url("not a url").is_err());
}

#[test]
fn magnet_first_name_wins_and_setters() {
    let mut magnet = Magnet::from_url("magnet:?dn=A&dn=B&xt=urn:btih:FF").unwrap();
    assert_eq!(magnet.display_name(), "A");
    magnet.set_trackers(vec!["t1".into(), "t2".into()]);
    magnet.set_display_name("N".into());
    magnet.set_info_hash("H".into());
    assert_eq!(magnet.url(), "magnet:?xt=urn:btih:H&dn=N&tr=t1&tr=t2");
}
