//! Magnet links: read from a URL, and written back.
use vstd::prelude::*;
use crate::multimap_calls::{multimap_contents, multimap_get, multimap_get_vec, multimap_insert, multimap_new};
use crate::text::{join, join_strings, push_all, replace, str_eq, str_replace};
use crate::url_calls::{call_parse, parsed_url};

verus! {

/// A magnet link's name, trackers and info hash.
#[derive(Debug)]
pub struct Magnet {
    display_name: String,
    trackers: Vec<String>,
    info_hash: String,
}

/// The plain values of a `Magnet`.
pub struct MagnetView {
    pub display_name: Seq<char>,
    pub trackers: Seq<Seq<char>>,
    pub info_hash: Seq<char>,
}

impl View for Magnet {
    type V = MagnetView;

    closed spec fn view(&self) -> MagnetView {
        MagnetView {
            display_name: self.display_name@,
            trackers: self.trackers.deep_view(),
            info_hash: self.info_hash@,
        }
    }
}

/// Whether a query pair has the key `k`.
pub open spec fn key_is(k: Seq<char>) -> spec_fn((Seq<char>, Seq<char>)) -> bool {
    |p: (Seq<char>, Seq<char>)| p.0 == k
}

/// The values of the query pairs with key `k`, in order.
pub open spec fn values_of(pairs: Seq<(Seq<char>, Seq<char>)>, k: Seq<char>) -> Seq<Seq<char>> {
    pairs.filter(key_is(k)).map_values(|p: (Seq<char>, Seq<char>)| p.1)
}

/// The first value of key `k`, or `Unknown`.
pub open spec fn first_or_unknown(pairs: Seq<(Seq<char>, Seq<char>)>, k: Seq<char>) -> Seq<char> {
    if values_of(pairs, k).len() > 0 {
        values_of(pairs, k)[0]
    } else {
        "Unknown"@
    }
}

/// The magnet that a link's query gives: the first `dn` as its name, every
/// `tr` as a tracker, the first `xt` without `urn:btih:` as its hash;
/// `Unknown` for a missing name or hash.
pub open spec fn magnet_of_pairs(pairs: Seq<(Seq<char>, Seq<char>)>) -> MagnetView {
    MagnetView {
        display_name: first_or_unknown(pairs, "dn"@),
        trackers: values_of(pairs, "tr"@),
        info_hash: if values_of(pairs, "xt"@).len() > 0 {
            replace(values_of(pairs, "xt"@)[0], "urn:btih:"@, ""@)
        } else {
            "Unknown"@
        },
    }
}

/// What reading a link gives: the URL's parse error, an error for a scheme
/// other than `magnet`, or the magnet of its query.
pub open spec fn from_url_spec(url: Seq<char>) -> Result<MagnetView, Seq<char>> {
    match parsed_url(url) {
        Err(e) => Err(e),
        Ok((scheme, pairs)) => if scheme != "magnet"@ {
            Err("Not a magnet link"@)
        } else {
            Ok(magnet_of_pairs(pairs))
        },
    }
}

/// The link that a magnet writes: hash, name, then the trackers.
pub open spec fn magnet_url(m: MagnetView) -> Seq<char> {
    "magnet:?xt=urn:btih:"@ + m.info_hash + "&dn="@ + m.display_name + "&tr="@ + join(m.trackers, "&tr="@)
}

/// The grouping of the first pairs by key, as the multimap holds it.
pub open spec fn grouped(pairs: Seq<(Seq<char>, Seq<char>)>) -> Map<Seq<char>, Seq<Seq<char>>> {
    Map::new(|k: Seq<char>| values_of(pairs, k).len() > 0, |k: Seq<char>| values_of(pairs, k))
}

proof fn lemma_values_push(pairs: Seq<(Seq<char>, Seq<char>)>, p: (Seq<char>, Seq<char>), k: Seq<char>)
    ensures
        values_of(pairs.push(p), k) == if p.0 == k {
            values_of(pairs, k).push(p.1)
        } else {
            values_of(pairs, k)
        },
{
    pairs.lemma_filter_push(p, key_is(k));
    let f = |q: (Seq<char>, Seq<char>)| q.1;
    if p.0 == k {
        assert(pairs.push(p).filter(key_is(k)).map_values(f) =~= pairs.filter(key_is(k)).map_values(f).push(p.1));
    }
}

impl Magnet {
    /// Reads a magnet link.
    pub fn from_url(url: &str) -> (r: Result<Magnet, String>)
        ensures
            match r {
                Ok(m) => from_url_spec(url@) == Ok::<MagnetView, Seq<char>>(m@),
                Err(e) => from_url_spec(url@) == Err::<MagnetView, Seq<char>>(e@),
            },
    {
        let (scheme, pairs) = match call_parse(url) {
            Ok(p) => p,
            Err(e) => {
                return Err(e);
            },
        };
        if !str_eq(scheme.as_str(), "magnet") {
            return Err("Not a magnet link".to_owned());
        }
        let ghost pv = pairs.deep_view();
        let mut qp = multimap_new();
        let mut i: usize = 0;
        assert(multimap_contents(qp) =~= grouped(pv.take(0)));
        while i < pairs.len()
            invariant
                pv == pairs.deep_view(),
                i <= pv.len(),
                multimap_contents(qp) == grouped(pv.take(i as int)),
            decreases pairs.len() - i,
        {
            let (k, v) = (pairs[i].0.clone(), pairs[i].1.clone());
            let ghost before = pv.take(i as int);
            assert(pv.take(i + 1) == before.push((k@, v@)));
            let ghost old_contents = multimap_contents(qp);
            multimap_insert(&mut qp, k, v);
            assert(multimap_contents(qp) =~= grouped(pv.take(i + 1))) by {
                assert forall|key: Seq<char>| #[trigger] grouped(pv.take(i + 1)).dom().contains(key)
                    <==> multimap_contents(qp).dom().contains(key) by {
                    lemma_values_push(before, (k@, v@), key);
                }
                assert forall|key: Seq<char>| multimap_contents(qp).dom().contains(key) implies #[trigger] multimap_contents(qp)[key]
                    == grouped(pv.take(i + 1))[key] by {
                    lemma_values_push(before, (k@, v@), key);
                }
            }
            i = i + 1;
        }
        assert(pv.take(pv.len() as int) == pv);
        let display_name = match multimap_get(&qp, "dn") {
            Some(n) => n,
            None => "Unknown".to_owned(),
        };
        let trackers = match multimap_get_vec(&qp, "tr") {
            Some(t) => t,
            None => Vec::new(),
        };
        assert("urn:btih:"@.len() > 0) by {
            reveal_strlit("urn:btih:");
        }
        let info_hash = match multimap_get(&qp, "xt") {
            Some(x) => str_replace(x.as_str(), "urn:btih:", ""),
            None => "Unknown".to_owned(),
        };
        let m = Magnet { display_name, trackers, info_hash };
        assert(m@.trackers =~= values_of(pv, "tr"@));
        Ok(m)
    }

    /// Writes the magnet back as a link.
    pub fn url(&self) -> (r: String)
        ensures
            r@ == magnet_url(self@),
    {
        let mut r = String::new();
        push_all(&mut r, "magnet:?xt=urn:btih:");
        push_all(&mut r, self.info_hash.as_str());
        push_all(&mut r, "&dn=");
        push_all(&mut r, self.display_name.as_str());
        push_all(&mut r, "&tr=");
        let trackers = join_strings(&self.trackers, "&tr=");
        push_all(&mut r, trackers.as_str());
        r
    }

    pub fn display_name(&self) -> (r: &String)
        ensures
            r@ == self@.display_name,
    {
        &self.display_name
    }

    pub fn trackers(&self) -> (r: &Vec<String>)
        ensures
            r.deep_view() == self@.trackers,
    {
        &self.trackers
    }

    pub fn info_hash(&self) -> (r: &String)
        ensures
            r@ == self@.info_hash,
    {
        &self.info_hash
    }

    pub fn set_display_name(&mut self, value: String)
        ensures
            final(self)@ == (MagnetView { display_name: value@, ..old(self)@ }),
    {
        self.display_name = value;
    }

    pub fn set_trackers(&mut self, value: Vec<String>)
        ensures
            final(self)@ == (MagnetView { trackers: value.deep_view(), ..old(self)@ }),
    {
        self.trackers = value;
    }

    pub fn set_info_hash(&mut self, value: String)
        ensures
            final(self)@ == (MagnetView { info_hash: value@, ..old(self)@ }),
    {
        self.info_hash = value;
    }
}

} // verus!
