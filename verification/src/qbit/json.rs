//! JSON values as the sync API sends them, and how a change report is merged
//! into what is known: objects are merged key by key, anything else is replaced.
use vstd::prelude::*;

verus! {

/// A JSON value. Numbers are kept as their text; object entries keep their order.
#[derive(Debug)]
pub enum JsonValue {
    Null,
    Bool(bool),
    Number(String),
    Text(String),
    Array(Vec<JsonValue>),
    Object(Vec<(String, JsonValue)>),
}

/// The plain values of a `JsonValue`.
pub enum JsonView {
    Null,
    Bool(bool),
    Number(Seq<char>),
    Text(Seq<char>),
    Array(Seq<JsonView>),
    Object(Seq<(Seq<char>, JsonView)>),
}

impl JsonValue {
    pub open spec fn spec_view(&self) -> JsonView
        decreases self,
    {
        match self {
            JsonValue::Null => JsonView::Null,
            JsonValue::Bool(b) => JsonView::Bool(*b),
            JsonValue::Number(n) => JsonView::Number(n@),
            JsonValue::Text(t) => JsonView::Text(t@),
            JsonValue::Array(v) => JsonView::Array(
                Seq::new(
                    v@.len(),
                    |i: int|
                        if 0 <= i < v@.len() {
                            v@[i].spec_view()
                        } else {
                            JsonView::Null
                        },
                ),
            ),
            JsonValue::Object(v) => JsonView::Object(entries_view(v@)),
        }
    }
}

/// The plain values of a list of object entries.
pub open spec fn entries_view(v: Seq<(String, JsonValue)>) -> Seq<(Seq<char>, JsonView)>
    decreases v,
{
    Seq::new(
        v.len(),
        |i: int|
            if 0 <= i < v.len() {
                (v[i].0@, v[i].1.spec_view())
            } else {
                (Seq::empty(), JsonView::Null)
            },
    )
}

/// The position of the first entry with key `k`.
pub open spec fn key_index(entries: Seq<(Seq<char>, JsonView)>, k: Seq<char>) -> Option<int>
    decreases entries.len(),
{
    if entries.len() == 0 {
        None
    } else if entries[0].0 == k {
        Some(0)
    } else {
        match key_index(entries.drop_first(), k) {
            Some(i) => Some(i + 1),
            None => None,
        }
    }
}

/// The keys of a list of entries.
pub open spec fn keys(entries: Seq<(Seq<char>, JsonView)>) -> Seq<Seq<char>> {
    entries.map_values(|e: (Seq<char>, JsonView)| e.0)
}

/// No key occurs twice.
pub open spec fn unique_keys(entries: Seq<(Seq<char>, JsonView)>) -> bool {
    forall|i: int, j: int| 0 <= i < j < entries.len() ==> entries[i].0 != entries[j].0
}

proof fn lemma_key_index(entries: Seq<(Seq<char>, JsonView)>, k: Seq<char>)
    ensures
        key_index(entries, k) matches Some(i) ==> 0 <= i < entries.len() && entries[i].0 == k,
        key_index(entries, k) is None <==> !keys(entries).contains(k),
    decreases entries.len(),
{
    if entries.len() > 0 {
        lemma_key_index(entries.drop_first(), k);
        if entries[0].0 == k {
            assert(keys(entries)[0] == k);
        } else {
            if keys(entries).contains(k) {
                let j = choose|j: int| 0 <= j < keys(entries).len() && keys(entries)[j] == k;
                assert(keys(entries.drop_first())[j - 1] == k);
            }
            if keys(entries.drop_first()).contains(k) {
                let j = choose|j: int| 0 <= j < keys(entries.drop_first()).len() && keys(entries.drop_first())[j] == k;
                assert(keys(entries)[j + 1] == k);
            }
        }
    }
}

/// A key is among the merged entries exactly when it is among either list.
pub proof fn lemma_merge_entries_keys(ea: Seq<(Seq<char>, JsonView)>, eb: Seq<(Seq<char>, JsonView)>, k: Seq<char>)
    ensures
        keys(merge_entries(ea, eb)).contains(k) <==> (keys(ea).contains(k) || keys(eb).contains(k)),
    decreases eb.len(),
{
    if eb.len() > 0 {
        let kb = eb[0].0;
        let v = eb[0].1;
        lemma_key_index(ea, kb);
        let next = match key_index(ea, kb) {
            Some(i) => ea.update(i, (kb, json_merge(ea[i].1, v))),
            None => ea.push((kb, v)),
        };
        lemma_merge_entries_keys(next, eb.drop_first(), k);
        assert(keys(next).contains(k) <==> (keys(ea).contains(k) || kb == k)) by {
            match key_index(ea, kb) {
                Some(i) => {
                    assert(keys(next) =~= keys(ea));
                },
                None => {
                    assert(keys(next) =~= keys(ea).push(kb));
                    if keys(next).contains(k) && !keys(ea).contains(k) {
                        let j = choose|j: int| 0 <= j < keys(next).len() && keys(next)[j] == k;
                        if j < ea.len() {
                            assert(keys(ea)[j] == k);
                        }
                    }
                    if keys(ea).contains(k) {
                        let j = choose|j: int| 0 <= j < keys(ea).len() && keys(ea)[j] == k;
                        assert(keys(next)[j] == k);
                    }
                    if kb == k {
                        assert(keys(next)[ea.len() as int] == k);
                    }
                },
            }
        }
        assert(keys(eb).contains(k) <==> (kb == k || keys(eb.drop_first()).contains(k))) by {
            assert(keys(eb)[0] == kb);
            if keys(eb).contains(k) && kb != k {
                let j = choose|j: int| 0 <= j < keys(eb).len() && keys(eb)[j] == k;
                assert(keys(eb.drop_first())[j - 1] == k);
            }
            if keys(eb.drop_first()).contains(k) {
                let j = choose|j: int| 0 <= j < keys(eb.drop_first()).len() && keys(eb.drop_first())[j] == k;
                assert(keys(eb)[j + 1] == k);
            }
        }
    }
}

/// Merging keeps keys unique: a key already there is merged in place, a new one added once.
pub proof fn lemma_merge_entries_unique(ea: Seq<(Seq<char>, JsonView)>, eb: Seq<(Seq<char>, JsonView)>)
    requires
        unique_keys(ea),
    ensures
        unique_keys(merge_entries(ea, eb)),
    decreases eb.len(),
{
    if eb.len() > 0 {
        let kb = eb[0].0;
        let v = eb[0].1;
        lemma_key_index(ea, kb);
        let next = match key_index(ea, kb) {
            Some(i) => ea.update(i, (kb, json_merge(ea[i].1, v))),
            None => ea.push((kb, v)),
        };
        assert(unique_keys(next)) by {
            match key_index(ea, kb) {
                Some(i) => {},
                None => {
                    assert forall|i: int, j: int| 0 <= i < j < next.len() implies next[i].0 != next[j].0 by {
                        if j == ea.len() {
                            assert(keys(ea)[i] == ea[i].0);
                        }
                    }
                },
            }
        }
        lemma_merge_entries_unique(next, eb.drop_first());
    }
}

/// `b` merged into `a`: two objects are merged entry by entry; otherwise `b` replaces `a`.
pub open spec fn json_merge(a: JsonView, b: JsonView) -> JsonView
    decreases b, 0int,
{
    match b {
        JsonView::Object(eb) => match a {
            JsonView::Object(ea) => JsonView::Object(merge_entries(ea, eb)),
            _ => b,
        },
        _ => b,
    }
}

/// The entries of `eb` merged, in order, into the entries `ea`: a key that
/// `ea` has gets its value merged in place, a new key is added at the end.
pub open spec fn merge_entries(ea: Seq<(Seq<char>, JsonView)>, eb: Seq<(Seq<char>, JsonView)>) -> Seq<(Seq<char>, JsonView)>
    decreases eb, 1int,
{
    if eb.len() == 0 {
        ea
    } else {
        let k = eb[0].0;
        let v = eb[0].1;
        let next = match key_index(ea, k) {
            Some(i) => ea.update(i, (k, json_merge(ea[i].1, v))),
            None => ea.push((k, v)),
        };
        merge_entries(next, eb.drop_first())
    }
}

/// A report's value replaces what is known unless both are objects; two
/// objects merge into an object that has the keys of both.
pub proof fn lemma_json_merge_shape(a: JsonView, b: JsonView)
    ensures
        !(b is Object) ==> json_merge(a, b) == b,
        !(a is Object) ==> json_merge(a, b) == b,
        match (a, b) {
            (JsonView::Object(ea), JsonView::Object(eb)) => json_merge(a, b) matches JsonView::Object(em)
                && forall|k: Seq<char>| #[trigger] keys(em).contains(k) <==> (keys(ea).contains(k)
                    || keys(eb).contains(k)),
            _ => true,
        },
{
    match (a, b) {
        (JsonView::Object(ea), JsonView::Object(eb)) => {
            assert(json_merge(a, b) == JsonView::Object(merge_entries(ea, eb)));
            assert forall|k: Seq<char>| #[trigger] keys(merge_entries(ea, eb)).contains(k) <==> (keys(ea).contains(k)
                || keys(eb).contains(k)) by {
                lemma_merge_entries_keys(ea, eb, k);
            }
        },
        _ => {},
    }
}

/// An entry whose key the report does not mention keeps its place and its value.
pub proof fn lemma_merge_entries_untouched(ea: Seq<(Seq<char>, JsonView)>, eb: Seq<(Seq<char>, JsonView)>, i: int)
    requires
        0 <= i < ea.len(),
        !keys(eb).contains(ea[i].0),
    ensures
        ea.len() <= merge_entries(ea, eb).len(),
        merge_entries(ea, eb)[i] == ea[i],
    decreases eb.len(),
{
    if eb.len() > 0 {
        let kb = eb[0].0;
        let v = eb[0].1;
        assert(keys(eb)[0] == kb);
        assert(kb != ea[i].0);
        lemma_key_index(ea, kb);
        let next = match key_index(ea, kb) {
            Some(j) => ea.update(j, (kb, json_merge(ea[j].1, v))),
            None => ea.push((kb, v)),
        };
        assert(next[i] == ea[i]);
        assert(!keys(eb.drop_first()).contains(ea[i].0)) by {
            if keys(eb.drop_first()).contains(ea[i].0) {
                let j = choose|j: int| 0 <= j < keys(eb.drop_first()).len() && keys(eb.drop_first())[j] == ea[i].0;
                assert(keys(eb)[j + 1] == ea[i].0);
            }
        }
        lemma_merge_entries_untouched(next, eb.drop_first(), i);
    }
}

/// The position of the first entry with key `k`.
pub fn key_position(entries: &Vec<(String, JsonValue)>, k: &String) -> (r: Option<usize>)
    ensures
        match r {
            Some(i) => key_index(entries_view(entries@), k@) == Some(i as int),
            None => key_index(entries_view(entries@), k@) is None,
        },
{
    let ghost ev = entries_view(entries@);
    let mut i: usize = 0;
    assert(ev.skip(0) == ev);
    while i < entries.len()
        invariant
            ev == entries_view(entries@),
            i <= entries@.len(),
            key_index(ev, k@) == match key_index(ev.skip(i as int), k@) {
                Some(j) => Some(j + i),
                None => None::<int>,
            },
        decreases entries.len() - i,
    {
        let ghost rest = ev.skip(i as int);
        assert(rest[0] == ev[i as int]);
        assert(ev[i as int].0 == entries@[i as int].0@);
        if entries[i].0 == *k {
            return Some(i);
        }
        assert(rest.drop_first() == ev.skip(i + 1));
        i = i + 1;
    }
    None
}

proof fn lemma_entries_view_push(v: Seq<(String, JsonValue)>, e: (String, JsonValue))
    ensures
        entries_view(v.push(e)) == entries_view(v).push((e.0@, e.1.spec_view())),
{
    assert(entries_view(v.push(e)) =~= entries_view(v).push((e.0@, e.1.spec_view())));
}

/// `b` merged into `a`: objects entry by entry, anything else replaced by `b`.
pub fn merge_json(a: JsonValue, b: JsonValue) -> (r: JsonValue)
    ensures
        r.spec_view() == json_merge(a.spec_view(), b.spec_view()),
    decreases b.spec_view(), 0int,
{
    match b {
        JsonValue::Object(eb) => match a {
            JsonValue::Object(ea) => JsonValue::Object(merge_entry_list(ea, eb)),
            _ => JsonValue::Object(eb),
        },
        other => other,
    }
}

/// The entries of `eb` merged, in order, into `ea`.
pub fn merge_entry_list(ea: Vec<(String, JsonValue)>, eb: Vec<(String, JsonValue)>) -> (r: Vec<(String, JsonValue)>)
    ensures
        entries_view(r@) == merge_entries(entries_view(ea@), entries_view(eb@)),
    decreases entries_view(eb@), 1int,
{
    if eb.len() == 0 {
        return ea;
    }
    let ghost eav = entries_view(ea@);
    let ghost ebv = entries_view(eb@);
    let mut eb = eb;
    let mut ea = ea;
    let ghost old_eb = eb@;
    let (k, v) = eb.remove(0);
    assert(ebv[0] == (k@, v.spec_view()));
    assert(entries_view(eb@) =~= ebv.drop_first());
    assert(ebv.drop_first() =~= ebv.subrange(1, ebv.len() as int));
    match key_position(&ea, &k) {
        Some(i) => {
            proof {
                lemma_key_index(eav, k@);
            }
            let ghost before = ea@;
            let (k0, v0) = ea.remove(i);
            assert(eav[i as int] == (k0@, v0.spec_view()));
            assert(decreases_to!(ebv => ebv[0]));
            assert(decreases_to!(ebv[0] => ebv[0].1));
            let m = merge_json(v0, v);
            ea.insert(i, (k0, m));
            assert(entries_view(ea@) =~= eav.update(i as int, (k@, json_merge(eav[i as int].1, ebv[0].1)))) by {
                assert forall|j: int| 0 <= j < ea@.len() implies entries_view(ea@)[j] == eav.update(
                    i as int,
                    (k@, json_merge(eav[i as int].1, ebv[0].1)),
                )[j] by {
                    if j != i {
                        assert(ea@[j] == before[j]);
                    }
                }
            }
        },
        None => {
            proof {
                lemma_entries_view_push(ea@, (k, v));
            }
            ea.push((k, v));
        },
    }
    merge_entry_list(ea, eb)
}

} // verus!
