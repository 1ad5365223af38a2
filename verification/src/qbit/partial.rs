//! Partial torrent records, as the sync API reports changes, and how a newer
//! report is laid over an older one.
use vstd::prelude::*;
use crate::qbit::models::TorrentState;

verus! {

/// A torrent as far as a sync report describes it; absent fields did not change.
/// `progress` holds the bits of the fraction downloaded (an `f64`, as
/// `f64::to_bits` gives them).
#[derive(Debug, Clone)]
pub struct PartialTorrent {
    pub amount_left: Option<usize>,
    pub category: Option<String>,
    pub completed: Option<usize>,
    pub content_path: Option<String>,
    pub dlspeed: Option<u32>,
    pub downloaded: Option<usize>,
    pub downloaded_session: Option<usize>,
    pub eta: Option<usize>,
    pub name: Option<String>,
    pub progress: Option<u64>,
    pub size: Option<usize>,
    pub state: Option<TorrentState>,
}

/// The plain values of a `PartialTorrent`.
pub struct PartialTorrentView {
    pub amount_left: Option<usize>,
    pub category: Option<Seq<char>>,
    pub completed: Option<usize>,
    pub content_path: Option<Seq<char>>,
    pub dlspeed: Option<u32>,
    pub downloaded: Option<usize>,
    pub downloaded_session: Option<usize>,
    pub eta: Option<usize>,
    pub name: Option<Seq<char>>,
    pub progress: Option<u64>,
    pub size: Option<usize>,
    pub state: Option<TorrentState>,
}

impl View for PartialTorrent {
    type V = PartialTorrentView;

    open spec fn view(&self) -> PartialTorrentView {
        PartialTorrentView {
            amount_left: self.amount_left,
            category: self.category.deep_view(),
            completed: self.completed,
            content_path: self.content_path.deep_view(),
            dlspeed: self.dlspeed,
            downloaded: self.downloaded,
            downloaded_session: self.downloaded_session,
            eta: self.eta,
            name: self.name.deep_view(),
            progress: self.progress,
            size: self.size,
            state: self.state,
        }
    }
}

/// The newer value where there is one, else the older.
pub open spec fn newer<T>(old: Option<T>, new: Option<T>) -> Option<T> {
    match new {
        Some(v) => Some(v),
        None => old,
    }
}

/// A newer report laid over an older one, field by field.
pub open spec fn laid_over(a: PartialTorrentView, b: PartialTorrentView) -> PartialTorrentView {
    PartialTorrentView {
        amount_left: newer(a.amount_left, b.amount_left),
        category: newer(a.category, b.category),
        completed: newer(a.completed, b.completed),
        content_path: newer(a.content_path, b.content_path),
        dlspeed: newer(a.dlspeed, b.dlspeed),
        downloaded: newer(a.downloaded, b.downloaded),
        downloaded_session: newer(a.downloaded_session, b.downloaded_session),
        eta: newer(a.eta, b.eta),
        name: newer(a.name, b.name),
        progress: newer(a.progress, b.progress),
        size: newer(a.size, b.size),
        state: newer(a.state, b.state),
    }
}

/// A report that says nothing.
pub open spec fn silent_report() -> PartialTorrentView {
    PartialTorrentView {
        amount_left: None,
        category: None,
        completed: None,
        content_path: None,
        dlspeed: None,
        downloaded: None,
        downloaded_session: None,
        eta: None,
        name: None,
        progress: None,
        size: None,
        state: None,
    }
}

fn newer_value<T>(old: Option<T>, new: Option<T>) -> (r: Option<T>)
    ensures
        r == newer(old, new),
{
    match new {
        Some(v) => Some(v),
        None => old,
    }
}

impl PartialTorrent {
    /// Lays the newer report `other` over this one: each field `other` has replaces this one's.
    pub fn merge(&mut self, other: Self)
        ensures
            final(self)@ == laid_over(old(self)@, other@),
    {
        self.amount_left = newer_value(self.amount_left.take(), other.amount_left);
        self.category = newer_value(self.category.take(), other.category);
        self.completed = newer_value(self.completed.take(), other.completed);
        self.content_path = newer_value(self.content_path.take(), other.content_path);
        self.dlspeed = newer_value(self.dlspeed.take(), other.dlspeed);
        self.downloaded = newer_value(self.downloaded.take(), other.downloaded);
        self.downloaded_session = newer_value(self.downloaded_session.take(), other.downloaded_session);
        self.eta = newer_value(self.eta.take(), other.eta);
        self.name = newer_value(self.name.take(), other.name);
        self.progress = newer_value(self.progress.take(), other.progress);
        self.size = newer_value(self.size.take(), other.size);
        self.state = newer_value(self.state.take(), other.state);
    }

    pub fn content_path(&self) -> (r: &Option<String>)
        ensures
            r.deep_view() == self@.content_path,
    {
        &self.content_path
    }

    pub fn progress(&self) -> (r: &Option<u64>)
        ensures
            *r == self@.progress,
    {
        &self.progress
    }

    pub fn eta(&self) -> (r: &Option<usize>)
        ensures
            *r == self@.eta,
    {
        &self.eta
    }

    pub fn state(&self) -> (r: &Option<TorrentState>)
        ensures
            *r == self@.state,
    {
        &self.state
    }
}

/// Laying reports over one another does not depend on how they are grouped:
/// applying `b` then `c` equals applying `c` laid over `b`.
pub proof fn lemma_laid_over_associative(a: PartialTorrentView, b: PartialTorrentView, c: PartialTorrentView)
    ensures
        laid_over(laid_over(a, b), c) == laid_over(a, laid_over(b, c)),
{
}

/// Laying a report over itself changes nothing.
pub proof fn lemma_laid_over_idempotent(a: PartialTorrentView)
    ensures
        laid_over(a, a) == a,
{
}

/// A report that says nothing changes nothing, and anything laid over it is itself.
pub proof fn lemma_laid_over_silent(a: PartialTorrentView)
    ensures
        laid_over(a, silent_report()) == a,
        laid_over(silent_report(), a) == a,
{
}

/// What a report says wins: every field it has is in the result.
pub proof fn lemma_laid_over_newest_wins(a: PartialTorrentView, b: PartialTorrentView)
    ensures
        b.progress is Some ==> laid_over(a, b).progress == b.progress,
        b.eta is Some ==> laid_over(a, b).eta == b.eta,
        b.state is Some ==> laid_over(a, b).state == b.state,
        b.content_path is Some ==> laid_over(a, b).content_path == b.content_path,
{
}

} // verus!
