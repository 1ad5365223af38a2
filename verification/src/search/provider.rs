//! The torrent sites a search can ask, sets of them, and which of them a
//! search asks.
use vstd::prelude::*;
use crate::search::options::{MovieOptions, SearchOptions};

verus! {

/// A torrent site.
#[derive(Debug, Clone, Copy, PartialEq, Eq, Hash, Structural)]
pub enum Provider {
    PirateBay,
    X1337,
    Yts,
    BitSearch,
}

/// Every provider, in declaration order.
pub open spec fn all_providers() -> Seq<Provider> {
    seq![Provider::PirateBay, Provider::X1337, Provider::Yts, Provider::BitSearch]
}

/// No provider occurs twice in `s`.
pub open spec fn no_duplicates(s: Seq<Provider>) -> bool {
    forall|i: int, j: int| 0 <= i < j < s.len() ==> s[i] != s[j]
}

/// `a` followed by each provider of `b` that is not already there, in `b`'s order.
pub open spec fn extend_providers(a: Seq<Provider>, b: Seq<Provider>) -> Seq<Provider>
    decreases b.len(),
{
    if b.len() == 0 {
        a
    } else {
        let next = if a.contains(b[0]) {
            a
        } else {
            a.push(b[0])
        };
        extend_providers(next, b.drop_first())
    }
}

/// Extending a set of providers gives their union, with no provider twice.
pub proof fn lemma_extend_providers(a: Seq<Provider>, b: Seq<Provider>)
    requires
        no_duplicates(a),
    ensures
        no_duplicates(extend_providers(a, b)),
        forall|p: Provider| #[trigger]
            extend_providers(a, b).contains(p) <==> (a.contains(p) || b.contains(p)),
    decreases b.len(),
{
    if b.len() > 0 {
        let next = if a.contains(b[0]) {
            a
        } else {
            a.push(b[0])
        };
        assert(no_duplicates(next)) by {
            if !a.contains(b[0]) {
                assert forall|i: int, j: int| 0 <= i < j < next.len() implies next[i] != next[j] by {
                    if j == a.len() {
                        assert(a.contains(next[i]));
                    }
                }
            }
        }
        lemma_extend_providers(next, b.drop_first());
        assert forall|p: Provider| extend_providers(a, b).contains(p) <==> (a.contains(p)
            || b.contains(p)) by {
            if b.contains(p) && !b.drop_first().contains(p) {
                let k = choose|k: int| 0 <= k < b.len() && b[k] == p;
                if k > 0 {
                    assert(b.drop_first()[k - 1] == p);
                }
                assert(next.contains(p)) by {
                    if !a.contains(b[0]) {
                        assert(next[a.len() as int] == b[0]);
                    }
                }
            }
            if b.drop_first().contains(p) {
                let k = choose|k: int| 0 <= k < b.drop_first().len() && b.drop_first()[k] == p;
                assert(b[k + 1] == p);
            }
            if next.contains(p) && !a.contains(p) {
                let k = choose|k: int| 0 <= k < next.len() && next[k] == p;
                assert(b[0] == p);
            }
            if a.contains(p) {
                let k = choose|k: int| 0 <= k < a.len() && a[k] == p;
                assert(next[k] == p);
            }
        }
    }
}

impl Provider {
    /// Every provider: PirateBay, 1337x, YTS and BitSearch.
    pub fn all() -> (r: Vec<Provider>)
        ensures
            r@ == all_providers(),
    {
        let mut r = Vec::new();
        r.push(Provider::PirateBay);
        r.push(Provider::X1337);
        r.push(Provider::Yts);
        r.push(Provider::BitSearch);
        assert(r@ == all_providers());
        r
    }
}

/// Whether `p` occurs in `v`.
pub fn contains_provider(v: &Vec<Provider>, p: Provider) -> (r: bool)
    ensures
        r == v@.contains(p),
{
    let mut i: usize = 0;
    while i < v.len()
        invariant
            i <= v@.len(),
            forall|k: int| 0 <= k < i ==> v@[k] != p,
        decreases v.len() - i,
    {
        if v[i] == p {
            return true;
        }
        i = i + 1;
    }
    false
}

/// Adds each provider of `other` that `set` does not hold yet.
pub fn extend_provider_set(set: &mut Vec<Provider>, other: &Vec<Provider>)
    ensures
        final(set)@ == extend_providers(old(set)@, other@),
{
    let mut i: usize = 0;
    assert(other@.skip(0) == other@);
    while i < other.len()
        invariant
            i <= other@.len(),
            extend_providers(old(set)@, other@) == extend_providers(set@, other@.skip(i as int)),
        decreases other.len() - i,
    {
        let ghost rest = other@.skip(i as int);
        assert(rest.drop_first() == other@.skip(i + 1));
        let p = other[i];
        if !contains_provider(set, p) {
            set.push(p);
        }
        i = i + 1;
    }
    assert(other@.skip(other@.len() as int).len() == 0);
}

/// The providers that a search asks: none for an empty query, every provider
/// when none were chosen, else each chosen provider once.
pub open spec fn search_plan_spec(query: Seq<char>, chosen: Seq<Provider>) -> Seq<Provider> {
    if query.len() == 0 {
        Seq::empty()
    } else if chosen.len() == 0 {
        all_providers()
    } else {
        extend_providers(Seq::empty(), chosen)
    }
}

/// The providers that a movie search asks: as for a search, keyed on the IMDb
/// id, but without 1337x, which has no movie search.
pub open spec fn movie_plan_spec(imdb: Seq<char>, chosen: Seq<Provider>) -> Seq<Provider> {
    search_plan_spec(imdb, chosen).filter(|p: Provider| p != Provider::X1337)
}

/// The providers that `search_options` is sent to, from the chosen set.
pub fn search_plan(search_options: &SearchOptions, providers: &Vec<Provider>) -> (r: Vec<Provider>)
    ensures
        r@ == search_plan_spec(search_options.spec_query(), providers@),
{
    if search_options.query().is_empty() {
        return Vec::new();
    }
    if providers.len() == 0 {
        return Provider::all();
    }
    let mut r = Vec::new();
    extend_provider_set(&mut r, providers);
    r
}

/// The providers that `movie_options` is sent to, from the chosen set.
pub fn movie_search_plan(movie_options: &MovieOptions, providers: &Vec<Provider>) -> (r: Vec<Provider>)
    ensures
        r@ == movie_plan_spec(movie_options.spec_imdb(), providers@),
{
    let ghost all = if movie_options.spec_imdb().len() == 0 {
        Seq::<Provider>::empty()
    } else if providers@.len() == 0 {
        all_providers()
    } else {
        extend_providers(Seq::empty(), providers@)
    };
    let plan: Vec<Provider> = if movie_options.imdb().is_empty() {
        Vec::new()
    } else if providers.len() == 0 {
        Provider::all()
    } else {
        let mut r = Vec::new();
        extend_provider_set(&mut r, providers);
        r
    };
    let mut r = Vec::new();
    let mut i: usize = 0;
    while i < plan.len()
        invariant
            plan@ == all,
            i <= plan@.len(),
            r@ == plan@.subrange(0, i as int).filter(|p: Provider| p != Provider::X1337),
        decreases plan.len() - i,
    {
        let ghost before = plan@.subrange(0, i as int);
        assert(plan@.subrange(0, i + 1) == before.push(plan@[i as int]));
        proof {
            before.lemma_filter_push(plan@[i as int], |p: Provider| p != Provider::X1337);
        }
        if plan[i] != Provider::X1337 {
            r.push(plan[i]);
        }
        i = i + 1;
    }
    assert(plan@.subrange(0, plan@.len() as int) == plan@);
    r
}

} // verus!
