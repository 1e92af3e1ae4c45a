//! The hash indices of the registry.
//!
//! The maps are `ahash::AHashMap`s. Verus does not look inside them: each map
//! type gets a name for the entries it holds, and each method used gets a
//! small function whose contract is taken on trust from the map's
//! documented behaviour. Keys are integers, strings, and tuples and vectors of
//! them, whose equality and hashing are those of the standard library.

use ahash::AHashMap;
use vstd::prelude::*;

use crate::data::PropertiesModel;
use crate::data::RawBlockStateProperties;

verus! {

/// `ahash::RandomState`, the maps' hasher: carried along, never looked into.
#[verifier::external_type_specification]
#[verifier::external_body]
pub struct ExRandomState(ahash::RandomState);

/// `ahash::AHashMap`: carried along, read only through the functions below.
#[verifier::external_type_specification]
#[verifier::external_body]
#[verifier::reject_recursive_types(K)]
#[verifier::reject_recursive_types(V)]
#[verifier::reject_recursive_types(S)]
pub struct ExAHashMap<K, V, S>(AHashMap<K, V, S>);

/// From raw properties to the id of the state that has them.
pub type RawIndex = AHashMap<(u16, Vec<Option<u16>>), u16>;

/// From a kind's number to a position in one of the tables.
pub type KindIndex = AHashMap<u16, usize>;

/// From a namespaced id and an ordered list of name/value pairs to a state id.
pub type UntypedIndex = AHashMap<(String, Vec<(String, String)>), u16>;

/// What a `RawIndex` holds, as a mathematical map.
pub type RawEntries = Map<(u16, Seq<Option<u16>>), u16>;

/// What a `KindIndex` holds, as a mathematical map.
pub type KindEntries = Map<u16, usize>;

/// What an `UntypedIndex` holds, as a mathematical map.
pub type UntypedEntries = Map<(Seq<char>, Seq<(Seq<char>, Seq<char>)>), u16>;

/// The key under which raw properties are indexed.
pub open spec fn raw_key(p: PropertiesModel) -> (u16, Seq<Option<u16>>) {
    (p.kind.id, p.values)
}

/// The entries that a `RawIndex` holds.
pub uninterp spec fn raw_index_entries(m: RawIndex) -> RawEntries;

/// The entries that a `KindIndex` holds.
pub uninterp spec fn kind_index_entries(m: KindIndex) -> KindEntries;

/// The entries that an `UntypedIndex` holds.
pub uninterp spec fn untyped_index_entries(m: UntypedIndex) -> UntypedEntries;

/// `AHashMap::new`: a map without entries.
#[verifier::external_body]
pub(crate) fn raw_index_new() -> (m: RawIndex)
    ensures
        raw_index_entries(m) == RawEntries::empty(),
{
    AHashMap::new()
}

/// `AHashMap::insert`: the entry for the key is set to `id`, all others stay;
/// the value that the key had before is handed back, if it had one.
#[verifier::external_body]
pub(crate) fn raw_index_insert(
    m: &mut RawIndex,
    key: &RawBlockStateProperties,
    id: u16,
) -> (prev: Option<u16>)
    ensures
        raw_index_entries(*final(m)) == raw_index_entries(*old(m)).insert(raw_key(key@), id),
        prev == (if raw_index_entries(*old(m)).contains_key(raw_key(key@)) {
            Some(raw_index_entries(*old(m))[raw_key(key@)])
        } else {
            None
        }),
{
    m.insert((key.kind.id, key.values.clone()), id)
}

/// `AHashMap::get`: the value stored for the key, if there is one.
#[verifier::external_body]
pub(crate) fn raw_index_get(m: &RawIndex, key: &RawBlockStateProperties) -> (found: Option<u16>)
    ensures
        found == (if raw_index_entries(*m).contains_key(raw_key(key@)) {
            Some(raw_index_entries(*m)[raw_key(key@)])
        } else {
            None
        }),
{
    m.get(&(key.kind.id, key.values.clone())).copied()
}

/// `AHashMap::new`: a map without entries.
#[verifier::external_body]
pub(crate) fn kind_index_new() -> (m: KindIndex)
    ensures
        kind_index_entries(m) == KindEntries::empty(),
{
    AHashMap::new()
}

/// `AHashMap::insert`: the entry for the key is set to `at`, all others stay;
/// the value that the key had before is handed back, if it had one.
#[verifier::external_body]
pub(crate) fn kind_index_insert(m: &mut KindIndex, key: u16, at: usize) -> (prev: Option<usize>)
    ensures
        kind_index_entries(*final(m)) == kind_index_entries(*old(m)).insert(key, at),
        prev == (if kind_index_entries(*old(m)).contains_key(key) {
            Some(kind_index_entries(*old(m))[key])
        } else {
            None
        }),
{
    m.insert(key, at)
}

/// `AHashMap::get`: the value stored for the key, if there is one.
#[verifier::external_body]
pub(crate) fn kind_index_get(m: &KindIndex, key: u16) -> (found: Option<usize>)
    ensures
        found == (if kind_index_entries(*m).contains_key(key) {
            Some(kind_index_entries(*m)[key])
        } else {
            None
        }),
{
    m.get(&key).copied()
}

/// `AHashMap::new`: a map without entries.
#[verifier::external_body]
pub(crate) fn untyped_index_new() -> (m: UntypedIndex)
    ensures
        untyped_index_entries(m) == UntypedEntries::empty(),
{
    AHashMap::new()
}

/// `AHashMap::insert`: the entry for the key is set to `id`, all others stay;
/// the value that the key had before is handed back, if it had one.
#[verifier::external_body]
pub(crate) fn untyped_index_insert(
    m: &mut UntypedIndex,
    namespaced_id: &str,
    pairs: &Vec<(String, String)>,
    id: u16,
) -> (prev: Option<u16>)
    ensures
        untyped_index_entries(*final(m)) == untyped_index_entries(*old(m)).insert(
            (namespaced_id@, pairs.deep_view()),
            id,
        ),
        prev == (if untyped_index_entries(*old(m)).contains_key(
            (namespaced_id@, pairs.deep_view()),
        ) {
            Some(untyped_index_entries(*old(m))[(namespaced_id@, pairs.deep_view())])
        } else {
            None
        }),
{
    m.insert((namespaced_id.to_string(), pairs.clone()), id)
}

/// `AHashMap::get`: the value stored for the key, if there is one.
#[verifier::external_body]
pub(crate) fn untyped_index_get(
    m: &UntypedIndex,
    namespaced_id: &str,
    pairs: &Vec<(String, String)>,
) -> (found: Option<u16>)
    ensures
        found == (if untyped_index_entries(*m).contains_key((namespaced_id@, pairs.deep_view())) {
            Some(untyped_index_entries(*m)[(namespaced_id@, pairs.deep_view())])
        } else {
            None
        }),
{
    m.get(&(namespaced_id.to_string(), pairs.clone())).copied()
}

} // verus!
