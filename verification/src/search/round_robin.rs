//! Taking a site's mirrors in turn.
use vstd::prelude::*;

verus! {

/// Mirrors of one site, handed out in turn.
pub struct RoundRobin {
    index: usize,
    urls: Vec<String>,
}

impl RoundRobin {
    /// How many mirrors have been handed out so far.
    pub closed spec fn spec_index(&self) -> usize {
        self.index
    }

    /// The mirrors.
    pub closed spec fn spec_urls(&self) -> Seq<Seq<char>> {
        self.urls.deep_view()
    }

    pub fn new(urls: Vec<String>) -> (r: Self)
        ensures
            r.spec_index() == 0,
            r.spec_urls() == urls.deep_view(),
    {
        Self { index: 0, urls }
    }

    /// The next mirror: the counter moves on by one and picks the mirror at
    /// its value modulo the number of mirrors.
    pub fn get(&mut self) -> (r: String)
        requires
            old(self).spec_urls().len() > 0,
            old(self).spec_index() < usize::MAX,
        ensures
            final(self).spec_index() == old(self).spec_index() + 1,
            final(self).spec_urls() == old(self).spec_urls(),
            r@ == old(self).spec_urls()[(old(self).spec_index() + 1) % old(self).spec_urls().len() as int],
    {
        self.index = self.index + 1;
        let i = self.index % self.urls.len();
        self.urls[i].clone()
    }
}

} // verus!
