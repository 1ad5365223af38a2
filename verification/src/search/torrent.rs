//! A torrent found by a search, how two reports of one torrent are merged,
//! and how a magnet link is written.
use vstd::prelude::*;
use vstd::utf8::encode_utf8;
use crate::search::movie::{merged_properties, Codec, MovieProperties, MoviePropertiesView, Quality, Source};
use crate::search::provider::{extend_provider_set, extend_providers, lemma_extend_providers, no_duplicates, Provider};
use crate::text::{join, join_strings, push_all};
use crate::urlencoding_calls::{call_encode, percent_encode};

verus! {

/// A torrent as a provider reports it. `added` is a Unix timestamp in seconds.
#[derive(Debug, Clone)]
pub struct Torrent {
    pub added: i64,
    pub category: String,
    pub file_count: usize,
    pub id: String,
    pub info_hash: String,
    pub leechers: usize,
    pub name: String,
    pub seeders: usize,
    pub size: u64,
    pub provider: Vec<Provider>,
    pub magnet: String,
    pub movie_properties: Option<MovieProperties>,
}

/// The plain values of a `Torrent`.
pub struct TorrentView {
    pub added: i64,
    pub category: Seq<char>,
    pub file_count: usize,
    pub id: Seq<char>,
    pub info_hash: Seq<char>,
    pub leechers: usize,
    pub name: Seq<char>,
    pub seeders: usize,
    pub size: u64,
    pub provider: Seq<Provider>,
    pub magnet: Seq<char>,
    pub movie_properties: Option<MoviePropertiesView>,
}

impl View for Torrent {
    type V = TorrentView;

    open spec fn view(&self) -> TorrentView {
        TorrentView {
            added: self.added,
            category: self.category@,
            file_count: self.file_count,
            id: self.id@,
            info_hash: self.info_hash@,
            leechers: self.leechers,
            name: self.name@,
            seeders: self.seeders,
            size: self.size,
            provider: self.provider@,
            magnet: self.magnet@,
            movie_properties: match self.movie_properties {
                Some(p) => Some(p@),
                None => None,
            },
        }
    }
}

/// The properties of two reports of one movie, merged.
pub open spec fn merged_movie(
    a: Option<MoviePropertiesView>,
    b: Option<MoviePropertiesView>,
) -> Option<MoviePropertiesView> {
    match a {
        Some(x) => match b {
            Some(y) => Some(merged_properties(x, y)),
            None => Some(x),
        },
        None => b,
    }
}

/// Two reports of one torrent merged: each empty or zero field of `a` taken
/// from `b`, the providers of both, and the movie properties merged. The info
/// hash of `a` is kept as it is.
pub open spec fn merged_torrent(a: TorrentView, b: TorrentView) -> TorrentView {
    TorrentView {
        added: if a.added == 0 { b.added } else { a.added },
        category: if a.category.len() == 0 { b.category } else { a.category },
        file_count: if a.file_count == 0 { b.file_count } else { a.file_count },
        id: if a.id.len() == 0 { b.id } else { a.id },
        info_hash: a.info_hash,
        leechers: if a.leechers == 0 { b.leechers } else { a.leechers },
        name: if a.name.len() == 0 { b.name } else { a.name },
        seeders: if a.seeders == 0 { b.seeders } else { a.seeders },
        size: if a.size == 0 { b.size } else { a.size },
        provider: extend_providers(a.provider, b.provider),
        magnet: if a.magnet.len() == 0 { b.magnet } else { a.magnet },
        movie_properties: merged_movie(a.movie_properties, b.movie_properties),
    }
}

impl Torrent {
    /// Merges another report of this torrent into this one: empty fields are
    /// filled from `other`, providers are joined, movie properties merged.
    pub fn merge(&mut self, other: Self)
        ensures
            final(self)@ == merged_torrent(old(self)@, other@),
    {
        let Torrent {
            added,
            category,
            file_count,
            id,
            info_hash: _,
            leechers,
            name,
            seeders,
            size,
            provider,
            magnet,
            movie_properties,
        } = other;
        if self.added == 0 {
            self.added = added;
        }
        if self.category.as_str().is_empty() {
            self.category = category;
        }
        if self.file_count == 0 {
            self.file_count = file_count;
        }
        if self.id.as_str().is_empty() {
            self.id = id;
        }
        match movie_properties {
            Some(other_props) => {
                match &mut self.movie_properties {
                    Some(props) => props.merge(other_props),
                    None => {
                        self.movie_properties = Some(other_props);
                    },
                }
            },
            None => {},
        }
        if self.leechers == 0 {
            self.leechers = leechers;
        }
        if self.name.as_str().is_empty() {
            self.name = name;
        }
        if self.seeders == 0 {
            self.seeders = seeders;
        }
        if self.size == 0 {
            self.size = size;
        }
        if self.magnet.as_str().is_empty() {
            self.magnet = magnet;
        }
        extend_provider_set(&mut self.provider, &provider);
    }
}

/// A torrent report that knows nothing: every field empty or zero.
pub open spec fn blank_torrent(info_hash: Seq<char>) -> TorrentView {
    TorrentView {
        added: 0,
        category: Seq::empty(),
        file_count: 0,
        id: Seq::empty(),
        info_hash,
        leechers: 0,
        name: Seq::empty(),
        seeders: 0,
        size: 0,
        provider: Seq::empty(),
        magnet: Seq::empty(),
        movie_properties: None,
    }
}

proof fn lemma_extend_with_contained(a: Seq<Provider>, b: Seq<Provider>)
    requires
        forall|i: int| 0 <= i < b.len() ==> a.contains(#[trigger] b[i]),
    ensures
        extend_providers(a, b) == a,
    decreases b.len(),
{
    if b.len() > 0 {
        assert(a.contains(b[0]));
        assert forall|i: int| 0 <= i < b.drop_first().len() implies a.contains(
            #[trigger] b.drop_first()[i],
        ) by {
            assert(b.drop_first()[i] == b[i + 1]);
        }
        lemma_extend_with_contained(a, b.drop_first());
    }
}

proof fn lemma_extend_empty_no_duplicates(b: Seq<Provider>)
    requires
        no_duplicates(b),
    ensures
        extend_providers(Seq::empty(), b) == b,
{
    lemma_extend_prefix(b, 0);
    assert(b.subrange(0, 0) == Seq::<Provider>::empty());
    assert(b.skip(0) == b);
}

proof fn lemma_extend_prefix(b: Seq<Provider>, k: int)
    requires
        no_duplicates(b),
        0 <= k <= b.len(),
    ensures
        extend_providers(b.subrange(0, k), b.skip(k)) == b,
    decreases b.len() - k,
{
    if k == b.len() {
        assert(b.subrange(0, k) == b);
    } else {
        let a = b.subrange(0, k);
        let rest = b.skip(k);
        assert(rest[0] == b[k]);
        assert(!a.contains(b[k])) by {
            if a.contains(b[k]) {
                let j = choose|j: int| 0 <= j < a.len() && a[j] == b[k];
                assert(b[j] == b[k]);
            }
        }
        assert(a.push(b[k]) == b.subrange(0, k + 1));
        assert(rest.drop_first() == b.skip(k + 1));
        lemma_extend_prefix(b, k + 1);
    }
}

/// Merging a report into itself changes nothing.
pub proof fn lemma_merge_idempotent(t: TorrentView)
    requires
        no_duplicates(t.provider),
    ensures
        merged_torrent(t, t) == t,
{
    assert forall|i: int| 0 <= i < t.provider.len() implies t.provider.contains(
        #[trigger] t.provider[i],
    ) by {}
    lemma_extend_with_contained(t.provider, t.provider);
    match t.movie_properties {
        Some(p) => {
            assert(merged_properties(p, p) == p);
        },
        None => {},
    }
}

/// Merging a blank report into a torrent changes nothing.
pub proof fn lemma_merge_blank_right(t: TorrentView)
    ensures
        merged_torrent(t, blank_torrent(t.info_hash)) == t,
{
    assert(extend_providers(t.provider, Seq::empty()) == t.provider);
    assert(t.category.len() == 0 ==> t.category =~= Seq::empty());
    assert(t.id.len() == 0 ==> t.id =~= Seq::empty());
    assert(t.name.len() == 0 ==> t.name =~= Seq::empty());
    assert(t.magnet.len() == 0 ==> t.magnet =~= Seq::empty());
}

/// Merging a torrent into a blank report gives that torrent, but for the info hash.
pub proof fn lemma_merge_blank_left(t: TorrentView, info_hash: Seq<char>)
    requires
        no_duplicates(t.provider),
    ensures
        merged_torrent(blank_torrent(info_hash), t) == (TorrentView { info_hash, ..t }),
{
    lemma_extend_empty_no_duplicates(t.provider);
}

/// After a merge the torrent is listed by each provider of either report, and by no other.
pub proof fn lemma_merge_providers(a: TorrentView, b: TorrentView)
    requires
        no_duplicates(a.provider),
    ensures
        no_duplicates(merged_torrent(a, b).provider),
        forall|p: Provider| #[trigger]
            merged_torrent(a, b).provider.contains(p) <==> (a.provider.contains(p)
                || b.provider.contains(p)),
{
    lemma_extend_providers(a.provider, b.provider);
}

/// A merge only fills in what the receiving report lacks: each text field
/// that is not empty and each number that is not zero keeps its value, and
/// each empty or zero one takes the other report's. The receiver's info hash
/// always stays.
pub proof fn lemma_merge_fills_only_empty_fields(a: TorrentView, b: TorrentView)
    ensures
        ({
            let m = merged_torrent(a, b);
            &&& m.info_hash == a.info_hash
            &&& m.added == (if a.added != 0 { a.added } else { b.added })
            &&& m.category == (if a.category.len() > 0 { a.category } else { b.category })
            &&& m.file_count == (if a.file_count != 0 { a.file_count } else { b.file_count })
            &&& m.id == (if a.id.len() > 0 { a.id } else { b.id })
            &&& m.leechers == (if a.leechers != 0 { a.leechers } else { b.leechers })
            &&& m.name == (if a.name.len() > 0 { a.name } else { b.name })
            &&& m.seeders == (if a.seeders != 0 { a.seeders } else { b.seeders })
            &&& m.size == (if a.size != 0 { a.size } else { b.size })
            &&& m.magnet == (if a.magnet.len() > 0 { a.magnet } else { b.magnet })
        }),
{
}

/// Merged movie properties keep every property the receiver knows (a known
/// quality, codec or source, an IMDb id) and take only the unknown ones from
/// the other report; a receiver without properties takes the other's.
pub proof fn lemma_merge_keeps_known_properties(a: TorrentView, b: TorrentView)
    ensures
        ({
            let m = merged_torrent(a, b).movie_properties;
            &&& (a.movie_properties is None ==> m == b.movie_properties)
            &&& (a.movie_properties matches Some(p) ==> (m matches Some(q) && {
                &&& (p.quality != Quality::Unknown ==> q.quality == p.quality)
                &&& (p.codec != Codec::Unknown ==> q.codec == p.codec)
                &&& (p.source != Source::Unknown ==> q.source == p.source)
                &&& (p.imdb is Some ==> q.imdb == p.imdb)
                &&& (b.movie_properties matches Some(o) ==> {
                    &&& (p.quality == Quality::Unknown ==> q.quality == o.quality)
                    &&& (p.codec == Codec::Unknown ==> q.codec == o.codec)
                    &&& (p.source == Source::Unknown ==> q.source == o.source)
                    &&& (p.imdb is None ==> q.imdb == o.imdb)
                })
                &&& (b.movie_properties is None ==> q == p)
            }))
        }),
{
}

/// The URL-encoding of a text.
pub open spec fn url_encoded(s: Seq<char>) -> Seq<char> {
    percent_encode(encode_utf8(s))
}

/// A magnet link: the info hash, each tracker URL-encoded, then the URL-encoded name.
pub open spec fn magnet_link(hash: Seq<char>, name: Seq<char>, trackers: Seq<Seq<char>>) -> Seq<char> {
    "magnet:?xt=urn:btih:"@ + hash + "&tr="@ + join(trackers.map_values(|t: Seq<char>| url_encoded(t)), "&tr="@)
        + "&dn="@ + url_encoded(name)
}

/// Writes the magnet link of a torrent from its hash, name and trackers.
pub fn format_magnet(hash: &str, name: &str, trackers: &[&str]) -> (r: String)
    ensures
        r@ == magnet_link(hash@, name@, trackers@.map_values(|t: &str| t@)),
{
    let ghost spec_trackers = trackers@.map_values(|t: &str| t@);
    let mut encoded: Vec<String> = Vec::new();
    let mut i: usize = 0;
    while i < trackers.len()
        invariant
            i <= trackers@.len(),
            spec_trackers == trackers@.map_values(|t: &str| t@),
            encoded.deep_view() == spec_trackers.subrange(0, i as int).map_values(
                |t: Seq<char>| url_encoded(t),
            ),
        decreases trackers.len() - i,
    {
        let e = call_encode(trackers[i]);
        assert(spec_trackers[i as int] == trackers@[i as int]@);
        let ghost before = encoded.deep_view();
        let ghost before_v = encoded@;
        encoded.push(e);
        assert(encoded.deep_view() =~= before.push(e@)) by {
            assert forall|k: int| 0 <= k < encoded@.len() implies encoded.deep_view()[k]
                == before.push(e@)[k] by {
                if k < before.len() {
                    assert(encoded@[k] == before_v[k]);
                }
            }
        }
        assert(encoded.deep_view() =~= spec_trackers.subrange(0, i + 1).map_values(
            |t: Seq<char>| url_encoded(t),
        ));
        i = i + 1;
    }
    assert(spec_trackers.subrange(0, trackers@.len() as int) == spec_trackers);
    let mut r = String::new();
    push_all(&mut r, "magnet:?xt=urn:btih:");
    push_all(&mut r, hash);
    push_all(&mut r, "&tr=");
    let joined = join_strings(&encoded, "&tr=");
    push_all(&mut r, joined.as_str());
    push_all(&mut r, "&dn=");
    let n = call_encode(name);
    push_all(&mut r, n.as_str());
    r
}

} // verus!
