//! The trackers that each site's magnet links announce to.
use vstd::prelude::*;

verus! {

/// The Pirate Bay's trackers.
pub open spec fn pirate_bay_tracker_list() -> Seq<Seq<char>> {
    seq![
        "udp://tracker.coppersurfer.tk:6969/announce"@,
        "udp://9.rarbg.to:2920/announce"@,
        "udp://tracker.opentrackr.org:1337"@,
        "udp://tracker.internetwarriors.net:1337/announce"@,
        "udp://tracker.leechers-paradise.org:6969/announce"@,
        "udp://tracker.coppersurfer.tk:6969/announce"@,
        "udp://tracker.pirateparty.gr:6969/announce"@,
        "udp://tracker.cyberia.is:6969/announce"@,
    ]
}

/// YTS's trackers.
pub open spec fn yts_tracker_list() -> Seq<Seq<char>> {
    seq![
        "udp://open.demonii.com:1337/announce"@,
        "udp://tracker.openbittorrent.com:80"@,
        "udp://tracker.coppersurfer.tk:6969"@,
        "udp://glotorrents.pw:6969/announce"@,
        "udp://tracker.opentrackr.org:1337/announce"@,
        "udp://torrent.gresille.org:80/announce"@,
        "udp://p4p.arenabg.com:1337"@,
        "udp://tracker.leechers-paradise.org:6969"@,
    ]
}

/// The Pirate Bay's trackers.
pub fn pirate_bay_trackers() -> (r: Vec<&'static str>)
    ensures
        r@.map_values(|t: &str| t@) == pirate_bay_tracker_list(),
{
    let r = vec![
        "udp://tracker.coppersurfer.tk:6969/announce",
        "udp://9.rarbg.to:2920/announce",
        "udp://tracker.opentrackr.org:1337",
        "udp://tracker.internetwarriors.net:1337/announce",
        "udp://tracker.leechers-paradise.org:6969/announce",
        "udp://tracker.coppersurfer.tk:6969/announce",
        "udp://tracker.pirateparty.gr:6969/announce",
        "udp://tracker.cyberia.is:6969/announce",
    ];
    assert(r@.map_values(|t: &str| t@) =~= pirate_bay_tracker_list());
    r
}

/// YTS's trackers.
pub fn yts_trackers() -> (r: Vec<&'static str>)
    ensures
        r@.map_values(|t: &str| t@) == yts_tracker_list(),
{
    let r = vec![
        "udp://open.demonii.com:1337/announce",
        "udp://tracker.openbittorrent.com:80",
        "udp://tracker.coppersurfer.tk:6969",
        "udp://glotorrents.pw:6969/announce",
        "udp://tracker.opentrackr.org:1337/announce",
        "udp://torrent.gresille.org:80/announce",
        "udp://p4p.arenabg.com:1337",
        "udp://tracker.leechers-paradise.org:6969",
    ];
    assert(r@.map_values(|t: &str| t@) =~= yts_tracker_list());
    r
}

} // verus!
