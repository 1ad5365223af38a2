//! The sync API's main data: a report of the torrents and categories that
//! changed since the last report, and how the known state takes it in.
use vstd::prelude::*;
use crate::qbit::json::{entries_view, keys, lemma_merge_entries_keys, merge_entries, merge_entry_list, JsonValue, JsonView};

verus! {

/// One answer of `/api/v2/sync/maindata`: torrents and categories by key,
/// each as JSON, and the keys that were removed.
#[derive(Debug)]
pub struct SyncMainData {
    pub rid: usize,
    pub full_update: bool,
    pub torrents: Vec<(String, JsonValue)>,
    pub torrents_removed: Vec<String>,
    pub categories: Vec<(String, JsonValue)>,
    pub categories_removed: Vec<String>,
}

/// Whether an entry's key is not among `removed`.
pub open spec fn not_removed(removed: Seq<Seq<char>>) -> spec_fn((Seq<char>, JsonView)) -> bool {
    |e: (Seq<char>, JsonView)| !removed.contains(e.0)
}

/// The entries whose keys are not among `removed`.
pub open spec fn without_keys(entries: Seq<(Seq<char>, JsonView)>, removed: Seq<Seq<char>>) -> Seq<(Seq<char>, JsonView)> {
    entries.filter(not_removed(removed))
}

/// Known entries after a report: the removed keys dropped, then the reported
/// entries merged in.
pub open spec fn updated_entries(
    known: Seq<(Seq<char>, JsonView)>,
    removed: Seq<Seq<char>>,
    reported: Seq<(Seq<char>, JsonView)>,
) -> Seq<(Seq<char>, JsonView)> {
    merge_entries(without_keys(known, removed), reported)
}

fn contains_string(v: &Vec<String>, s: &String) -> (r: bool)
    ensures
        r == v.deep_view().contains(s@),
{
    let mut i: usize = 0;
    while i < v.len()
        invariant
            i <= v@.len(),
            forall|k: int| 0 <= k < i ==> v.deep_view()[k] != s@,
        decreases v.len() - i,
    {
        if v[i] == *s {
            assert(v.deep_view()[i as int] == s@);
            return true;
        }
        i = i + 1;
    }
    false
}

/// Drops the entries whose keys are listed in `removed`.
fn remove_keys(entries: Vec<(String, JsonValue)>, removed: &Vec<String>) -> (r: Vec<(String, JsonValue)>)
    ensures
        entries_view(r@) == without_keys(entries_view(entries@), removed.deep_view()),
{
    let ghost ev = entries_view(entries@);
    let ghost rv = removed.deep_view();
    let ghost n = entries@.len();
    let mut rest = entries;
    let mut r: Vec<(String, JsonValue)> = Vec::new();
    assert(ev.skip(0) =~= ev);
    assert(entries_view(r@) =~= ev.take(0).filter(not_removed(rv)));
    while rest.len() > 0
        invariant
            n == ev.len(),
            rv == removed.deep_view(),
            rest@.len() <= n,
            entries_view(rest@) == ev.skip(n - rest@.len()),
            entries_view(r@) == ev.take(n - rest@.len()).filter(
                not_removed(rv),
            ),
        decreases rest.len(),
    {
        let ghost k = n - rest@.len();
        let ghost before = ev.take(k);
        assert(ev.take(k + 1) == before.push(ev[k]));
        proof {
            before.lemma_filter_push(ev[k], not_removed(rv));
        }
        let ghost old_rest = rest@;
        let e = rest.remove(0);
        assert(entries_view(old_rest)[0] == ev.skip(k)[0]);
        assert(ev[k] == (e.0@, e.1.spec_view()));
        assert(entries_view(rest@) =~= ev.skip(k + 1)) by {
            assert forall|j: int| 0 <= j < rest@.len() implies entries_view(rest@)[j] == ev.skip(
                k + 1,
            )[j] by {
                assert(rest@[j] == old_rest[j + 1]);
                assert(entries_view(old_rest)[j + 1] == ev.skip(k)[j + 1]);
            }
        }
        if !contains_string(removed, &e.0) {
            let ghost old_r = r@;
            r.push(e);
            assert(entries_view(r@) =~= entries_view(old_r).push(ev[k])) by {
                assert forall|j: int| 0 <= j < old_r.len() implies r@[j] == old_r[j] by {}
            }
        }
    }
    assert(ev.take(n as int) == ev);
    r
}

impl SyncMainData {
    /// Takes in a newer report: its id and kind, then for torrents and for
    /// categories the removed keys dropped and the reported entries merged.
    pub fn update(&mut self, other: Self)
        ensures
            final(self).rid == other.rid,
            final(self).full_update == other.full_update,
            entries_view(final(self).torrents@) == updated_entries(
                entries_view(old(self).torrents@),
                other.torrents_removed.deep_view(),
                entries_view(other.torrents@),
            ),
            entries_view(final(self).categories@) == updated_entries(
                entries_view(old(self).categories@),
                other.categories_removed.deep_view(),
                entries_view(other.categories@),
            ),
            final(self).torrents_removed.deep_view() == old(self).torrents_removed.deep_view(),
            final(self).categories_removed.deep_view() == old(self).categories_removed.deep_view(),
    {
        let SyncMainData { rid, full_update, torrents, torrents_removed, categories, categories_removed } = other;
        self.rid = rid;
        self.full_update = full_update;
        let mut known = Vec::new();
        std::mem::swap(&mut known, &mut self.torrents);
        let kept = remove_keys(known, &torrents_removed);
        self.torrents = merge_entry_list(kept, torrents);
        let mut known = Vec::new();
        std::mem::swap(&mut known, &mut self.categories);
        let kept = remove_keys(known, &categories_removed);
        self.categories = merge_entry_list(kept, categories);
    }
}

/// After a report, a key is known exactly when it was known and not removed,
/// or when the report has it.
pub proof fn lemma_update_keys(
    known: Seq<(Seq<char>, JsonView)>,
    removed: Seq<Seq<char>>,
    reported: Seq<(Seq<char>, JsonView)>,
    k: Seq<char>,
)
    ensures
        keys(updated_entries(known, removed, reported)).contains(k) <==> ((keys(known).contains(k)
            && !removed.contains(k)) || keys(reported).contains(k)),
{
    let kept = without_keys(known, removed);
    lemma_merge_entries_keys(kept, reported, k);
    assert(keys(kept).contains(k) <==> (keys(known).contains(k) && !removed.contains(k))) by {
        broadcast use vstd::seq_lib::group_filter_ensures;

        let f = not_removed(removed);
        if keys(kept).contains(k) {
            let j = choose|j: int| 0 <= j < keys(kept).len() && keys(kept)[j] == k;
            assert(kept.contains(kept[j]));
            known.lemma_filter_contains_rev(f, kept[j]);
            assert(known.contains(kept[j]));
            let i = choose|i: int| 0 <= i < known.len() && known[i] == kept[j];
            assert(keys(known)[i] == k);
        }
        if keys(known).contains(k) && !removed.contains(k) {
            let i = choose|i: int| 0 <= i < keys(known).len() && keys(known)[i] == k;
            assert(f(known[i]));
            known.lemma_filter_contains(f, i);
            assert(kept.contains(known[i]));
            let j = choose|j: int| 0 <= j < kept.len() && kept[j] == known[i];
            assert(keys(kept)[j] == k);
        }
    }
}

/// What the client knows of qBittorrent's state: the last report's id and
/// the data built up from the reports.
pub struct SyncState {
    pub rid: usize,
    pub main_data: Option<SyncMainData>,
}

impl SyncState {
    /// A state that has seen no report yet.
    pub fn new() -> (r: Self)
        ensures
            r.rid == 0,
            r.main_data is None,
    {
        SyncState { rid: 0, main_data: None }
    }

    /// Takes in a report: a full report replaces what is known; any other is
    /// merged into it, which needs a full report to have come first.
    pub fn apply(&mut self, sync: SyncMainData)
        requires
            sync.full_update || old(self).main_data is Some,
        ensures
            final(self).rid == sync.rid,
            sync.full_update ==> final(self).main_data == Some(sync),
            !sync.full_update ==> ({
                let before = old(self).main_data->0;
                let after = final(self).main_data->0;
                &&& final(self).main_data is Some
                &&& after.rid == sync.rid
                &&& after.full_update == sync.full_update
                &&& after.torrents_removed.deep_view() == before.torrents_removed.deep_view()
                &&& after.categories_removed.deep_view() == before.categories_removed.deep_view()
                &&& entries_view(after.torrents@) == updated_entries(
                    entries_view(before.torrents@),
                    sync.torrents_removed.deep_view(),
                    entries_view(sync.torrents@),
                )
                &&& entries_view(after.categories@) == updated_entries(
                    entries_view(before.categories@),
                    sync.categories_removed.deep_view(),
                    entries_view(sync.categories@),
                )
            }),
    {
        self.rid = sync.rid;
        if sync.full_update {
            self.main_data = Some(sync);
        } else {
            match &mut self.main_data {
                Some(data) => data.update(sync),
                None => {},
            }
        }
    }
}

} // verus!
