//! The `multimap` crate's `MultiMap`, as the magnet parser fills and reads it.
use vstd::prelude::*;
use multimap::MultiMap;

verus! {

#[verifier::external_type_specification]
#[verifier::external_body]
#[verifier::reject_recursive_types(K)]
#[verifier::reject_recursive_types(V)]
#[verifier::reject_recursive_types(S)]
pub struct ExMultiMap<K, V, S>(MultiMap<K, V, S>);

/// A multimap from strings to strings.
pub type StringMultiMap = MultiMap<String, String>;

/// What a multimap of strings holds: for each key, its values in the order they were inserted.
pub uninterp spec fn multimap_contents(m: StringMultiMap) -> Map<Seq<char>, Seq<Seq<char>>>;

/// `MultiMap::new`: an empty multimap.
#[verifier::external_body]
pub(crate) fn multimap_new() -> (r: StringMultiMap)
    ensures
        multimap_contents(r).dom().is_empty(),
{
    MultiMap::new()
}

/// `MultiMap::insert`: appends `v` to the values of `k`, making `k` a key when it was not one.
#[verifier::external_body]
pub(crate) fn multimap_insert(m: &mut StringMultiMap, k: String, v: String)
    ensures
        multimap_contents(*final(m)) == multimap_contents(*old(m)).insert(
            k@,
            if multimap_contents(*old(m)).dom().contains(k@) {
                multimap_contents(*old(m))[k@].push(v@)
            } else {
                seq![v@]
            },
        ),
{
    m.insert(k, v)
}

/// `MultiMap::get`: the first value of `k`.
#[verifier::external_body]
pub(crate) fn multimap_get(m: &StringMultiMap, k: &str) -> (r: Option<String>)
    ensures
        r.deep_view() == (if multimap_contents(*m).dom().contains(k@) && multimap_contents(*m)[k@].len() > 0 {
            Some(multimap_contents(*m)[k@][0])
        } else {
            None
        }),
{
    m.get(k).cloned()
}

/// `MultiMap::get_vec`: every value of `k`, in order.
#[verifier::external_body]
pub(crate) fn multimap_get_vec(m: &StringMultiMap, k: &str) -> (r: Option<Vec<String>>)
    ensures
        r.deep_view() == (if multimap_contents(*m).dom().contains(k@) {
            Some(multimap_contents(*m)[k@])
        } else {
            None
        }),
{
    m.get_vec(k).cloned()
}

} // verus!
