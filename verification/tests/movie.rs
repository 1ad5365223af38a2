use torrent_api::search::movie::{Codec, MovieProperties, Quality, Source, VideoCodec};

/// Torrent names and the codec, quality and source that each gives.
const NAMES: [(&str, Codec, Quality, Source); 8] = [
    ("The.Matrix.1999.1080p.BluRay.x264-GROUP", Codec::AVC, Quality::P1080, Source::BluRay),
    ("The Matrix (1999) 2160p x265 10bit WEBRip", Codec::HEVC, Quality::P2160, Source::WebRip),
    ("The Matrix 1999 DVDRip XviD", Codec::XVid, Quality::Unknown, Source::Dvd),
    ("The Matrix 1999 720p H.264 HDTV", Codec::AVC, Quality::P720, Source::Hdtv),
    ("Movie 480p HDTS", Codec::Unknown, Quality::P480, Source::Telesync),
    ("The Matrix 1999 1080 WEB", Codec::Unknown, Quality::P1080, Source::WebRip),
    ("Movie FHD HDCAM", Codec::Unknown, Quality::P720, Source::Cam),
    ("The Matrix 1999", Codec::Unknown, Quality::Unknown, Source::Unknown),
];

#[test]
fn test_codecs() {
    for (name, codec, _, _) in NAMES.iter() {
        assert_eq!(&Codec::from(name), codec, "{}", name);
    }
}

#[test]
fn test_qualities() {
    for (name, _, quality, _) in NAMES.iter() {
        assert_eq!(&Quality::from(name), quality, "{}", name);
    }
}

#[test]
fn sources_of_names() {
    for (name, _, _, source) in NAMES.iter() {
        assert_eq!(&Source::from_str(name).unwrap(), source, "{}", name);
    }
}

#[test]
fn quality_from_digits_only() {
    // no resolution pattern matches the lower-cased title, so "1080" is read as "1080p"
    assert_eq!(Quality::from("Some Film 1080 rip"), Quality::P1080);
}

#[test]
fn quality_upper_case_marker() {
    // "FHD" is matched on the title as written, not on its lower-cased form
    assert_eq!(Quality::from("Some Film FHD"), Quality::P1080);
}

#[test]
fn mod_test_merge() {
    let mut props1 = MovieProperties::new(
        "1".to_string(),
        Quality::Unknown,
        VideoCodec::AVC,
        Source::Unknown,
    );

    let props2 = MovieProperties::new(
        "2".to_string(),
        Quality::P1080,
        VideoCodec::Unknown,
        Source::BluRay,
    );

    props1.merge(props2);

    assert_eq!(props1.quality(), &Quality::P1080);
    assert_eq!(props1.codec(), &VideoCodec::AVC);
    assert_eq!(props1.source(), &Source::BluRay);
    assert_eq!(props1.imdb(), &Some("1".to_string()));
}

#[test]
fn properties_empty_imdb_is_none() {
    let props = MovieProperties::new(String::new(), Quality::P720, Codec::HEVC, Source::Dvd);
    assert_eq!(props.imdb(), &None);
}

#[test]
fn merge_fills_missing_imdb() {
    let mut a = MovieProperties::new(String::new(), Quality::P720, Codec::Unknown, Source::Unknown);
    let b = MovieProperties::new("tt1".to_string(), Quality::P480, Codec::HEVC, Source::Cam);
    a.merge(b);
    assert_eq!(a, MovieProperties::new("tt1".to_string(), Quality::P720, Codec::HEVC, Source::Cam));
}
