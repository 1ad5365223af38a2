//! Movie properties read from a torrent's title: video quality, codec and
//! source, each by the first of its patterns that matches.
use vstd::prelude::*;
use crate::regex_calls::{is_match, pattern_matches, replace_every, replaced_all};
use crate::text::{ascii_lower_seq, to_ascii_lowercase};

verus! {

pub const AVC_PATTERN: &'static str = r"\b([xh].?264|avc)\b";
pub const HEVC_PATTERN: &'static str = r"\b([xh].?265|hevc)\b";
pub const XVID_PATTERN: &'static str = r"\bx-?vid(?:hd)?\b";

/// A video codec.
#[derive(Debug, Clone, Copy, PartialEq, Eq, Structural)]
pub enum Codec {
    Unknown,
    AVC,
    HEVC,
    XVid,
}

/// The codec type as the movie properties name it.
pub type VideoCodec = Codec;

impl Codec {
    /// The codec of the first pattern that matches the lower-cased title.
    pub open spec fn of_title(s: Seq<char>) -> Codec {
        let l = ascii_lower_seq(s);
        if pattern_matches(AVC_PATTERN@, l) {
            Codec::AVC
        } else if pattern_matches(HEVC_PATTERN@, l) {
            Codec::HEVC
        } else if pattern_matches(XVID_PATTERN@, l) {
            Codec::XVid
        } else {
            Codec::Unknown
        }
    }

    /// Reads the codec out of a torrent's title.
    pub fn from(s: &str) -> (r: Codec)
        ensures
            r == Codec::of_title(s@),
    {
        let l = to_ascii_lowercase(s);
        let l = l.as_str();
        if is_match(AVC_PATTERN, l) {
            Codec::AVC
        } else if is_match(HEVC_PATTERN, l) {
            Codec::HEVC
        } else if is_match(XVID_PATTERN, l) {
            Codec::XVid
        } else {
            Codec::Unknown
        }
    }
}

impl Default for Codec {
    fn default() -> (r: Self)
        ensures
            r == Codec::Unknown,
    {
        Codec::Unknown
    }
}

pub const P480_PATTERN: &'static str = r"\D(?:480p|640x480|848x480)\b";
pub const P540_PATTERN: &'static str = r"\D(?:540p)\b";
pub const P576_PATTERN: &'static str = r"\D(?:576p)\b";
pub const P720_PATTERN: &'static str = r"\D(?:720p|1280x720|960p|hdcam(?:rip)?|hdt[cs])\b";
pub const P1080_PATTERN: &'static str = r"\D(?:1080p|1920x1080|1440p|FHD|1080i|4kto1080p)\b";
pub const P2160_PATTERN: &'static str = r"\D(?:2160p|3840x2160|4k[-_. ](?:UHD|HEVC|BD|H\.?265)|(?:UHD|HEVC|BD|H\.?265)[-_. ]4k)\b";
pub const SOME_DIGITS_PATTERN: &'static str = r"\d{3,4}";
/// Appends `p` to the whole match (as the digits rule does).
pub const APPEND_P: &'static str = "${0}p";

/// A video resolution.
#[derive(Debug, Clone, Copy, PartialEq, Eq, Structural)]
pub enum Quality {
    Unknown,
    P480,
    P540,
    P576,
    P720,
    P1080,
    P2160,
}

impl Quality {
    /// The resolution of the first resolution pattern that matches `t`.
    pub open spec fn first_matching(t: Seq<char>) -> Quality {
        if pattern_matches(P480_PATTERN@, t) {
            Quality::P480
        } else if pattern_matches(P540_PATTERN@, t) {
            Quality::P540
        } else if pattern_matches(P576_PATTERN@, t) {
            Quality::P576
        } else if pattern_matches(P720_PATTERN@, t) {
            Quality::P720
        } else if pattern_matches(P1080_PATTERN@, t) {
            Quality::P1080
        } else if pattern_matches(P2160_PATTERN@, t) {
            Quality::P2160
        } else {
            Quality::Unknown
        }
    }

    /// The resolution read from a title: first from the lower-cased title; when
    /// no pattern matches, from the title as given with `p` appended to every
    /// run of three or four digits.
    pub open spec fn of_title(s: Seq<char>) -> Quality {
        let first = Quality::first_matching(ascii_lower_seq(s));
        if first != Quality::Unknown {
            first
        } else {
            Quality::first_matching(replaced_all(SOME_DIGITS_PATTERN@, s, APPEND_P@))
        }
    }

    fn first_matching_exec(t: &str) -> (r: Quality)
        ensures
            r == Quality::first_matching(t@),
    {
        if is_match(P480_PATTERN, t) {
            Quality::P480
        } else if is_match(P540_PATTERN, t) {
            Quality::P540
        } else if is_match(P576_PATTERN, t) {
            Quality::P576
        } else if is_match(P720_PATTERN, t) {
            Quality::P720
        } else if is_match(P1080_PATTERN, t) {
            Quality::P1080
        } else if is_match(P2160_PATTERN, t) {
            Quality::P2160
        } else {
            Quality::Unknown
        }
    }

    /// Reads the resolution out of a torrent's title.
    pub fn from(s: &str) -> (r: Quality)
        ensures
            r == Quality::of_title(s@),
    {
        let l = to_ascii_lowercase(s);
        let first = Quality::first_matching_exec(l.as_str());
        if first != Quality::Unknown {
            first
        } else {
            let with_p = replace_every(SOME_DIGITS_PATTERN, s, APPEND_P);
            Quality::first_matching_exec(with_p.as_str())
        }
    }
}

impl Default for Quality {
    fn default() -> (r: Self)
        ensures
            r == Quality::Unknown,
    {
        Quality::Unknown
    }
}

pub const CAM_PATTERN: &'static str = r"\b(?:cam|hqcam|hdcam|camrip)\b";
pub const TELESYNC_PATTERN: &'static str = r"\b(?:telesync|hd-?ts|ts|pdvd|predvdrip)\b";
pub const TELECINE_PATTERN: &'static str = r"\b(?:telecine|hd-?tc|tc)\b";
pub const DVD_PATTERN: &'static str = r"\b(?:dvd|dvdrip|xvidvd|dvdr)\b";
pub const HDTV_PATTERN: &'static str = r"\b(?:hdtv|pdtv|dsr|dsrrip|satrip|dthrip|dvbrip|dtvrip|tvrip|hdtvrip)\b";
pub const WEBRIP_PATTERN: &'static str = r"\b(?:web|webdl|webrip)\b";
pub const BLURAY_PATTERN: &'static str = r"\b(?:blu-ray|bluray|bdrip|brip|brrip|bdr|bd|bdiso|bdmv|bdremux)\b";

/// Where a video was taken from.
#[derive(Debug, Clone, Copy, PartialEq, Eq, Structural)]
pub enum Source {
    Unknown,
    Cam,
    Telesync,
    Telecine,
    Dvd,
    Hdtv,
    Hdrip,
    WebRip,
    BluRay,
}

impl Source {
    /// The source of the first pattern that matches the lower-cased title.
    pub open spec fn of_title(s: Seq<char>) -> Source {
        let l = ascii_lower_seq(s);
        if pattern_matches(CAM_PATTERN@, l) {
            Source::Cam
        } else if pattern_matches(TELESYNC_PATTERN@, l) {
            Source::Telesync
        } else if pattern_matches(TELECINE_PATTERN@, l) {
            Source::Telecine
        } else if pattern_matches(DVD_PATTERN@, l) {
            Source::Dvd
        } else if pattern_matches(HDTV_PATTERN@, l) {
            Source::Hdtv
        } else if pattern_matches(WEBRIP_PATTERN@, l) {
            Source::WebRip
        } else if pattern_matches(BLURAY_PATTERN@, l) {
            Source::BluRay
        } else {
            Source::Unknown
        }
    }

    /// Reads the source out of a torrent's title; reading never fails.
    pub fn from_str(s: &str) -> (r: Result<Source, String>)
        ensures
            r == Ok::<Source, String>(Source::of_title(s@)),
    {
        let l = to_ascii_lowercase(s);
        let l = l.as_str();
        let source = if is_match(CAM_PATTERN, l) {
            Source::Cam
        } else if is_match(TELESYNC_PATTERN, l) {
            Source::Telesync
        } else if is_match(TELECINE_PATTERN, l) {
            Source::Telecine
        } else if is_match(DVD_PATTERN, l) {
            Source::Dvd
        } else if is_match(HDTV_PATTERN, l) {
            Source::Hdtv
        } else if is_match(WEBRIP_PATTERN, l) {
            Source::WebRip
        } else if is_match(BLURAY_PATTERN, l) {
            Source::BluRay
        } else {
            Source::Unknown
        };
        Ok(source)
    }
}

impl Default for Source {
    fn default() -> (r: Self)
        ensures
            r == Source::Unknown,
    {
        Source::Unknown
    }
}

/// What is known of the movie that a torrent holds.
#[derive(Debug, Clone, PartialEq, Eq)]
pub struct MovieProperties {
    quality: Quality,
    codec: Codec,
    source: Source,
    imdb: Option<String>,
}

/// The plain values of a `MovieProperties`.
pub struct MoviePropertiesView {
    pub quality: Quality,
    pub codec: Codec,
    pub source: Source,
    pub imdb: Option<Seq<char>>,
}

impl View for MovieProperties {
    type V = MoviePropertiesView;

    closed spec fn view(&self) -> MoviePropertiesView {
        MoviePropertiesView {
            quality: self.quality,
            codec: self.codec,
            source: self.source,
            imdb: self.imdb.deep_view(),
        }
    }
}

/// The properties that `merge` leaves: each unknown field of `a` filled from `b`.
pub open spec fn merged_properties(a: MoviePropertiesView, b: MoviePropertiesView) -> MoviePropertiesView {
    MoviePropertiesView {
        quality: if a.quality == Quality::Unknown { b.quality } else { a.quality },
        codec: if a.codec == Codec::Unknown { b.codec } else { a.codec },
        source: if a.source == Source::Unknown { b.source } else { a.source },
        imdb: if a.imdb is None { b.imdb } else { a.imdb },
    }
}

impl MovieProperties {
    /// New properties; an empty IMDb id is recorded as none.
    pub fn new(imdb: String, quality: Quality, codec: Codec, source: Source) -> (r: Self)
        ensures
            r@ == (MoviePropertiesView {
                quality,
                codec,
                source,
                imdb: if imdb@.len() == 0 { None } else { Some(imdb@) },
            }),
    {
        let is_empty = imdb.as_str().is_empty();
        Self { quality, codec, source, imdb: if is_empty { None } else { Some(imdb) } }
    }

    /// Fills each unknown field from `other`; known fields are kept.
    pub fn merge(&mut self, other: Self)
        ensures
            final(self)@ == merged_properties(old(self)@, other@),
    {
        if self.codec == Codec::Unknown {
            self.codec = other.codec;
        }
        if self.quality == Quality::Unknown {
            self.quality = other.quality;
        }
        if self.source == Source::Unknown {
            self.source = other.source;
        }
        if self.imdb.is_none() {
            self.imdb = other.imdb;
        }
    }

    pub fn quality(&self) -> (r: &Quality)
        ensures
            *r == self@.quality,
    {
        &self.quality
    }

    pub fn codec(&self) -> (r: &Codec)
        ensures
            *r == self@.codec,
    {
        &self.codec
    }

    pub fn source(&self) -> (r: &Source)
        ensures
            *r == self@.source,
    {
        &self.source
    }

    pub fn imdb(&self) -> (r: &Option<String>)
        ensures
            r.deep_view() == self@.imdb,
    {
        &self.imdb
    }
}

/// A title's source is read from its lower-cased form, checking the patterns
/// in a fixed priority: cam, then telesync, telecine, DVD, HDTV, web, Blu-ray.
/// Each source is read exactly when its pattern matches and no pattern before
/// it does; a title that no pattern matches has an unknown source.
pub proof fn lemma_source_priority(s: Seq<char>)
    ensures
        ({
            let l = ascii_lower_seq(s);
            let cam = pattern_matches(r"\b(?:cam|hqcam|hdcam|camrip)\b"@, l);
            let ts = pattern_matches(r"\b(?:telesync|hd-?ts|ts|pdvd|predvdrip)\b"@, l);
            let tc = pattern_matches(r"\b(?:telecine|hd-?tc|tc)\b"@, l);
            let dvd = pattern_matches(r"\b(?:dvd|dvdrip|xvidvd|dvdr)\b"@, l);
            let tv = pattern_matches(
                r"\b(?:hdtv|pdtv|dsr|dsrrip|satrip|dthrip|dvbrip|dtvrip|tvrip|hdtvrip)\b"@,
                l,
            );
            let web = pattern_matches(r"\b(?:web|webdl|webrip)\b"@, l);
            let bd = pattern_matches(
                r"\b(?:blu-ray|bluray|bdrip|brip|brrip|bdr|bd|bdiso|bdmv|bdremux)\b"@,
                l,
            );
            let v = Source::of_title(s);
            &&& (v == Source::Cam <==> cam)
            &&& (v == Source::Telesync <==> !cam && ts)
            &&& (v == Source::Telecine <==> !cam && !ts && tc)
            &&& (v == Source::Dvd <==> !cam && !ts && !tc && dvd)
            &&& (v == Source::Hdtv <==> !cam && !ts && !tc && !dvd && tv)
            &&& (v == Source::WebRip <==> !cam && !ts && !tc && !dvd && !tv && web)
            &&& (v == Source::BluRay <==> !cam && !ts && !tc && !dvd && !tv && !web && bd)
            &&& (v == Source::Unknown <==> !cam && !ts && !tc && !dvd && !tv && !web && !bd)
            &&& v != Source::Hdrip
        }),
{
}

/// A title's codec is read from its lower-cased form: AVC (x264, h264, avc)
/// before HEVC (x265, h265, hevc) before XviD; unknown when none matches.
pub proof fn lemma_codec_priority(s: Seq<char>)
    ensures
        ({
            let l = ascii_lower_seq(s);
            let avc = pattern_matches(r"\b([xh].?264|avc)\b"@, l);
            let hevc = pattern_matches(r"\b([xh].?265|hevc)\b"@, l);
            let xvid = pattern_matches(r"\bx-?vid(?:hd)?\b"@, l);
            let v = Codec::of_title(s);
            &&& (v == Codec::AVC <==> avc)
            &&& (v == Codec::HEVC <==> !avc && hevc)
            &&& (v == Codec::XVid <==> !avc && !hevc && xvid)
            &&& (v == Codec::Unknown <==> !avc && !hevc && !xvid)
        }),
{
}

/// A title's resolution is the lowest resolution whose pattern matches the
/// lower-cased title; only when none does is the title read again with `p`
/// written after every run of three or four digits.
pub proof fn lemma_quality_priority(s: Seq<char>)
    ensures
        ({
            let l = ascii_lower_seq(s);
            let p480 = pattern_matches(r"\D(?:480p|640x480|848x480)\b"@, l);
            let p540 = pattern_matches(r"\D(?:540p)\b"@, l);
            let p576 = pattern_matches(r"\D(?:576p)\b"@, l);
            let p720 = pattern_matches(r"\D(?:720p|1280x720|960p|hdcam(?:rip)?|hdt[cs])\b"@, l);
            let p1080 = pattern_matches(r"\D(?:1080p|1920x1080|1440p|FHD|1080i|4kto1080p)\b"@, l);
            let p2160 = pattern_matches(
                r"\D(?:2160p|3840x2160|4k[-_. ](?:UHD|HEVC|BD|H\.?265)|(?:UHD|HEVC|BD|H\.?265)[-_. ]4k)\b"@,
                l,
            );
            let any = p480 || p540 || p576 || p720 || p1080 || p2160;
            let v = Quality::of_title(s);
            &&& (p480 ==> v == Quality::P480)
            &&& (!p480 && p540 ==> v == Quality::P540)
            &&& (!p480 && !p540 && p576 ==> v == Quality::P576)
            &&& (!p480 && !p540 && !p576 && p720 ==> v == Quality::P720)
            &&& (!p480 && !p540 && !p576 && !p720 && p1080 ==> v == Quality::P1080)
            &&& (!p480 && !p540 && !p576 && !p720 && !p1080 && p2160 ==> v == Quality::P2160)
            &&& (!any ==> v == Quality::first_matching(
                replaced_all(r"\d{3,4}"@, s, "${0}p"@),
            ))
        }),
{
}

} // verus!
