//! The registry: the state table, the per-kind table and the hash indices
//! derived from them.
//!
//! A registry is built once from the two tables and never changes. Building
//! fails unless the tables are consistent: ids equal row positions, every key
//! names exactly one state, and every kind has a per-kind row and exactly one
//! default state.

use vstd::prelude::*;

use crate::data::kind_models;
use crate::data::state_models;
use crate::data::BlockKind;
use crate::data::KindModel;
use crate::data::PropertiesModel;
use crate::data::RawBlockProperties;
use crate::data::RawBlockState;
use crate::data::RawBlockStateProperties;
use crate::data::StateModel;
use crate::index::kind_index_entries;
use crate::index::kind_index_get;
use crate::index::kind_index_insert;
use crate::index::kind_index_new;
use crate::index::raw_index_entries;
use crate::index::raw_index_get;
use crate::index::raw_index_insert;
use crate::index::raw_index_new;
use crate::index::raw_key;
use crate::index::untyped_index_entries;
use crate::index::untyped_index_get;
use crate::index::untyped_index_insert;
use crate::index::untyped_index_new;
use crate::index::KindEntries;
use crate::index::KindIndex;
use crate::index::RawEntries;
use crate::index::RawIndex;
use crate::index::UntypedEntries;
use crate::index::UntypedIndex;

verus! {

/// Why a pair of tables cannot make a registry.
#[derive(Clone, Copy, Debug, PartialEq, Eq, Structural)]
pub enum RegistryError {
    /// A state row's id is not its position in the table.
    IdMismatch,
    /// A state row's kind differs from the kind inside its raw properties.
    KindMismatch,
    /// Two rows of the per-kind table are for the same kind.
    DuplicateKind,
    /// A state row's kind has no row in the per-kind table.
    UnknownKind,
    /// Two state rows have the same raw properties.
    DuplicateProperties,
    /// Two state rows have the same namespaced id and name/value pairs.
    DuplicateUntypedRepr,
    /// Two state rows of one kind are both marked default.
    DuplicateDefault,
    /// A kind has state rows, none of them marked default.
    MissingDefault,
}

/// Some row's id is not its position.
pub open spec fn id_mismatch(states: Seq<StateModel>) -> bool {
    exists|i: int| 0 <= i < states.len() && (#[trigger] states[i]).id != i
}

/// Some row's kind differs from the kind inside its raw properties.
pub open spec fn kind_mismatch(states: Seq<StateModel>) -> bool {
    exists|i: int| 0 <= i < states.len() && (#[trigger] states[i]).properties.kind != states[i].kind
}

/// Two per-kind rows are for the same kind.
pub open spec fn duplicate_kind(kinds: Seq<KindModel>) -> bool {
    exists|a: int, b: int|
        0 <= a < b < kinds.len() && (#[trigger] kinds[a]).kind == (#[trigger] kinds[b]).kind
}

/// Whether the per-kind table has a row for `kind`.
pub open spec fn has_kind_row(kinds: Seq<KindModel>, kind: BlockKind) -> bool {
    exists|k: int| 0 <= k < kinds.len() && (#[trigger] kinds[k]).kind == kind
}

/// The position of a row for `kind` in the per-kind table, if it has one.
pub open spec fn kind_row(kinds: Seq<KindModel>, kind: BlockKind) -> int {
    choose|k: int| 0 <= k < kinds.len() && (#[trigger] kinds[k]).kind == kind
}

/// Some state row's kind has no per-kind row.
pub open spec fn unknown_kind(states: Seq<StateModel>, kinds: Seq<KindModel>) -> bool {
    exists|i: int| 0 <= i < states.len() && !has_kind_row(kinds, (#[trigger] states[i]).kind)
}

/// Two state rows have the same raw properties.
pub open spec fn duplicate_properties(states: Seq<StateModel>) -> bool {
    exists|i: int, j: int|
        0 <= i < j < states.len() && raw_key((#[trigger] states[i]).properties) == raw_key(
            (#[trigger] states[j]).properties,
        )
}

/// The string form of a state: its kind's namespaced id and its ordered
/// name/value pairs.
pub open spec fn untyped_key(kinds: Seq<KindModel>, state: StateModel) -> (
    Seq<char>,
    Seq<(Seq<char>, Seq<char>)>,
) {
    (kinds[kind_row(kinds, state.kind)].namespaced_id, state.untyped_properties)
}

/// Two state rows have the same string form.
pub open spec fn duplicate_untyped(states: Seq<StateModel>, kinds: Seq<KindModel>) -> bool {
    exists|i: int, j: int|
        0 <= i < j < states.len() && untyped_key(kinds, #[trigger] states[i]) == untyped_key(
            kinds,
            #[trigger] states[j],
        )
}

/// Two state rows of one kind are both marked default.
pub open spec fn duplicate_default(states: Seq<StateModel>) -> bool {
    exists|i: int, j: int|
        0 <= i < j < states.len() && (#[trigger] states[i]).default && (#[trigger] states[j]).default
            && states[i].kind == states[j].kind
}

/// Whether some state row of `kind` is marked default.
pub open spec fn has_default(states: Seq<StateModel>, kind: BlockKind) -> bool {
    exists|j: int| 0 <= j < states.len() && (#[trigger] states[j]).kind == kind && states[j].default
}

/// Some state row's kind has no default state.
pub open spec fn missing_default(states: Seq<StateModel>) -> bool {
    exists|i: int| 0 <= i < states.len() && !has_default(states, (#[trigger] states[i]).kind)
}

/// The first reason, in the order of `RegistryError`'s variants, why the two
/// tables cannot make a registry; `None` where they can.
pub open spec fn first_fault(
    states: Seq<StateModel>,
    kinds: Seq<KindModel>,
) -> Option<RegistryError> {
    if id_mismatch(states) {
        Some(RegistryError::IdMismatch)
    } else if kind_mismatch(states) {
        Some(RegistryError::KindMismatch)
    } else if duplicate_kind(kinds) {
        Some(RegistryError::DuplicateKind)
    } else if unknown_kind(states, kinds) {
        Some(RegistryError::UnknownKind)
    } else if duplicate_properties(states) {
        Some(RegistryError::DuplicateProperties)
    } else if duplicate_untyped(states, kinds) {
        Some(RegistryError::DuplicateUntypedRepr)
    } else if duplicate_default(states) {
        Some(RegistryError::DuplicateDefault)
    } else if missing_default(states) {
        Some(RegistryError::MissingDefault)
    } else {
        None
    }
}

/// The two tables can make a registry.
pub open spec fn consistent(states: Seq<StateModel>, kinds: Seq<KindModel>) -> bool {
    first_fault(states, kinds) is None
}

/// The raw index holds exactly the first `n` state rows, each under its raw
/// properties.
pub open spec fn raw_index_faithful(e: RawEntries, states: Seq<StateModel>, n: int) -> bool {
    &&& forall|i: int|
        0 <= i < n ==> e.contains_key(raw_key((#[trigger] states[i]).properties)) && e[raw_key(
            states[i].properties,
        )] == i
    &&& forall|k: (u16, Seq<Option<u16>>)| #[trigger]
        e.contains_key(k) ==> 0 <= e[k] < n && raw_key(states[e[k] as int].properties) == k
}

/// The kind index holds exactly the first `n` per-kind rows, each under its
/// kind.
pub open spec fn kind_index_faithful(e: KindEntries, kinds: Seq<KindModel>, n: int) -> bool {
    &&& forall|a: int|
        0 <= a < n ==> e.contains_key((#[trigger] kinds[a]).kind.id) && e[kinds[a].kind.id] == a
    &&& forall|k: u16| #[trigger] e.contains_key(k) ==> 0 <= e[k] < n && kinds[e[k] as int].kind.id == k
}

/// The untyped index holds exactly the first `n` state rows, each under its
/// string form.
pub open spec fn untyped_index_faithful(
    e: UntypedEntries,
    states: Seq<StateModel>,
    kinds: Seq<KindModel>,
    n: int,
) -> bool {
    &&& forall|i: int|
        0 <= i < n ==> e.contains_key(untyped_key(kinds, #[trigger] states[i])) && e[untyped_key(
            kinds,
            states[i],
        )] == i
    &&& forall|k: (Seq<char>, Seq<(Seq<char>, Seq<char>)>)| #[trigger]
        e.contains_key(k) ==> 0 <= e[k] < n && untyped_key(kinds, states[e[k] as int]) == k
}

/// The default index holds exactly the default rows among the first `n` state
/// rows, each under its kind.
pub open spec fn default_index_faithful(e: KindEntries, states: Seq<StateModel>, n: int) -> bool {
    &&& forall|i: int|
        0 <= i < n && (#[trigger] states[i]).default ==> e.contains_key(states[i].kind.id)
            && e[states[i].kind.id] == i
    &&& forall|k: u16| #[trigger]
        e.contains_key(k) ==> 0 <= e[k] < n && states[e[k] as int].default
            && states[e[k] as int].kind.id == k
}

/// The position of the state row with raw properties `p`, if there is one.
pub open spec fn find_properties(states: Seq<StateModel>, p: PropertiesModel) -> Option<int> {
    if exists|i: int| 0 <= i < states.len() && (#[trigger] states[i]).properties == p {
        Some(choose|i: int| 0 <= i < states.len() && (#[trigger] states[i]).properties == p)
    } else {
        None
    }
}

/// The position of the state row with string form `key`, if there is one.
pub open spec fn find_untyped(
    states: Seq<StateModel>,
    kinds: Seq<KindModel>,
    key: (Seq<char>, Seq<(Seq<char>, Seq<char>)>),
) -> Option<int> {
    if exists|i: int| 0 <= i < states.len() && untyped_key(kinds, #[trigger] states[i]) == key {
        Some(choose|i: int| 0 <= i < states.len() && untyped_key(kinds, #[trigger] states[i]) == key)
    } else {
        None
    }
}

/// The position of the default state row of `kind`, if there is one.
pub open spec fn find_default(states: Seq<StateModel>, kind: BlockKind) -> Option<int> {
    if has_default(states, kind) {
        Some(
            choose|j: int|
                0 <= j < states.len() && (#[trigger] states[j]).kind == kind && states[j].default,
        )
    } else {
        None
    }
}

/// Consistent tables have an id for every row: at most 65536 rows.
pub proof fn lemma_table_fits(states: Seq<StateModel>, kinds: Seq<KindModel>)
    requires
        consistent(states, kinds),
    ensures
        states.len() <= 65536,
{
    if states.len() > 65536 {
        assert(states[65536].id != 65536);
    }
}

/// In consistent tables a state row is the only one with its raw properties.
pub proof fn lemma_find_properties(states: Seq<StateModel>, kinds: Seq<KindModel>, i: int)
    requires
        consistent(states, kinds),
        0 <= i < states.len(),
    ensures
        find_properties(states, states[i].properties) == Some(i),
{
    let p = states[i].properties;
    let j = choose|j: int| 0 <= j < states.len() && (#[trigger] states[j]).properties == p;
    if i < j {
        assert(raw_key(states[i].properties) == raw_key(states[j].properties));
    } else if j < i {
        assert(raw_key(states[j].properties) == raw_key(states[i].properties));
    }
}

/// In consistent tables a state row is the only one with its string form.
pub proof fn lemma_find_untyped(states: Seq<StateModel>, kinds: Seq<KindModel>, i: int)
    requires
        consistent(states, kinds),
        0 <= i < states.len(),
    ensures
        find_untyped(states, kinds, untyped_key(kinds, states[i])) == Some(i),
{
    let key = untyped_key(kinds, states[i]);
    let j = choose|j: int| 0 <= j < states.len() && untyped_key(kinds, #[trigger] states[j]) == key;
    if i < j {
        assert(untyped_key(kinds, states[i]) == untyped_key(kinds, states[j]));
    } else if j < i {
        assert(untyped_key(kinds, states[j]) == untyped_key(kinds, states[i]));
    }
}

/// In consistent tables a default state row is the only default of its kind.
pub proof fn lemma_find_default(states: Seq<StateModel>, kinds: Seq<KindModel>, i: int)
    requires
        consistent(states, kinds),
        0 <= i < states.len(),
        states[i].default,
    ensures
        find_default(states, states[i].kind) == Some(i),
{
    let kind = states[i].kind;
    let j = choose|j: int|
        0 <= j < states.len() && (#[trigger] states[j]).kind == kind && states[j].default;
    if i < j {
        assert(states[i].default && states[j].default && states[i].kind == states[j].kind);
    } else if j < i {
        assert(states[j].default && states[i].default && states[j].kind == states[i].kind);
    }
}

/// Where no two per-kind rows share a kind, the row of a kind is the one at
/// any position that holds that kind.
pub proof fn lemma_kind_row_unique(kinds: Seq<KindModel>, a: int)
    requires
        !duplicate_kind(kinds),
        0 <= a < kinds.len(),
    ensures
        has_kind_row(kinds, kinds[a].kind),
        kind_row(kinds, kinds[a].kind) == a,
{
    let kind = kinds[a].kind;
    let b = kind_row(kinds, kind);
    assert(0 <= b < kinds.len() && kinds[b].kind == kind);
    if a < b {
        assert(kinds[a].kind == kinds[b].kind);
    } else if b < a {
        assert(kinds[b].kind == kinds[a].kind);
    }
}

/// Whether every row's id is its position.
fn check_ids(states: &Vec<RawBlockState>) -> (ok: bool)
    ensures
        ok == !id_mismatch(state_models(states@)),
{
    let mut i: usize = 0;
    while i < states.len()
        invariant
            i <= states.len(),
            forall|j: int| 0 <= j < i ==> (#[trigger] state_models(states@)[j]).id == j,
        decreases states.len() - i,
    {
        if states[i].id as usize != i {
            assert(state_models(states@)[i as int].id != i);
            return false;
        }
        i += 1;
    }
    true
}

/// Whether every row's kind is the kind inside its raw properties.
fn check_kind_agreement(states: &Vec<RawBlockState>) -> (ok: bool)
    ensures
        ok == !kind_mismatch(state_models(states@)),
{
    let mut i: usize = 0;
    while i < states.len()
        invariant
            i <= states.len(),
            forall|j: int|
                0 <= j < i ==> (#[trigger] state_models(states@)[j]).properties.kind
                    == state_models(states@)[j].kind,
        decreases states.len() - i,
    {
        if states[i].properties.kind.id != states[i].kind.id {
            assert(state_models(states@)[i as int].properties.kind != state_models(
                states@,
            )[i as int].kind);
            return false;
        }
        i += 1;
    }
    true
}

/// Indexes the per-kind rows by kind, unless two of them share a kind.
fn build_kind_index(kinds: &Vec<RawBlockProperties>) -> (r: Option<KindIndex>)
    ensures
        r is None <==> duplicate_kind(kind_models(kinds@)),
        r matches Some(m) ==> kind_index_faithful(
            kind_index_entries(m),
            kind_models(kinds@),
            kinds.len() as int,
        ),
{
    let ghost rows = kind_models(kinds@);
    let mut m = kind_index_new();
    let mut a: usize = 0;
    while a < kinds.len()
        invariant
            a <= kinds.len(),
            rows == kind_models(kinds@),
            kind_index_faithful(kind_index_entries(m), rows, a as int),
        decreases kinds.len() - a,
    {
        let prev = kind_index_insert(&mut m, kinds[a].kind.id, a);
        if let Some(b) = prev {
            assert(rows[b as int].kind == rows[a as int].kind);
            return None;
        }
        a += 1;
    }
    assert(!duplicate_kind(rows)) by {
        assert forall|x: int, y: int| 0 <= x < y < rows.len() implies (#[trigger] rows[x]).kind != (
        #[trigger] rows[y]).kind by {
            let e = kind_index_entries(m);
            assert(e[rows[x].kind.id] == x);
            assert(e[rows[y].kind.id] == y);
        }
    }
    Some(m)
}

/// Whether every state row's kind has a per-kind row.
fn check_kinds_known(
    states: &Vec<RawBlockState>,
    kinds: &Vec<RawBlockProperties>,
    kind_rows: &KindIndex,
) -> (ok: bool)
    requires
        kind_index_faithful(kind_index_entries(*kind_rows), kind_models(kinds@), kinds.len() as int),
    ensures
        ok == !unknown_kind(state_models(states@), kind_models(kinds@)),
{
    let ghost rows = state_models(states@);
    let ghost ks = kind_models(kinds@);
    let mut i: usize = 0;
    while i < states.len()
        invariant
            i <= states.len(),
            rows == state_models(states@),
            ks == kind_models(kinds@),
            kind_index_faithful(kind_index_entries(*kind_rows), ks, kinds.len() as int),
            forall|j: int| 0 <= j < i ==> has_kind_row(ks, (#[trigger] rows[j]).kind),
        decreases states.len() - i,
    {
        let found = kind_index_get(kind_rows, states[i].kind.id);
        match found {
            Some(k) => {
                assert(ks[k as int].kind == rows[i as int].kind);
            },
            None => {
                assert(!has_kind_row(ks, rows[i as int].kind)) by {
                    if has_kind_row(ks, rows[i as int].kind) {
                        let k = kind_row(ks, rows[i as int].kind);
                        assert(kind_index_entries(*kind_rows).contains_key(ks[k].kind.id));
                    }
                }
                return false;
            },
        }
        i += 1;
    }
    true
}

/// Indexes the state rows by their raw properties, unless two of them share
/// raw properties.
fn build_raw_index(states: &Vec<RawBlockState>) -> (r: Option<RawIndex>)
    requires
        !id_mismatch(state_models(states@)),
    ensures
        r is None <==> duplicate_properties(state_models(states@)),
        r matches Some(m) ==> raw_index_faithful(
            raw_index_entries(m),
            state_models(states@),
            states.len() as int,
        ),
{
    let ghost rows = state_models(states@);
    let mut m = raw_index_new();
    let mut i: usize = 0;
    while i < states.len()
        invariant
            i <= states.len(),
            rows == state_models(states@),
            !id_mismatch(rows),
            raw_index_faithful(raw_index_entries(m), rows, i as int),
        decreases states.len() - i,
    {
        assert(rows[i as int].id == i);
        let prev = raw_index_insert(&mut m, &states[i].properties, states[i].id);
        if let Some(j) = prev {
            assert(raw_key(rows[j as int].properties) == raw_key(rows[i as int].properties));
            return None;
        }
        i += 1;
    }
    assert(!duplicate_properties(rows)) by {
        assert forall|x: int, y: int| 0 <= x < y < rows.len() implies raw_key(
            (#[trigger] rows[x]).properties,
        ) != raw_key((#[trigger] rows[y]).properties) by {
            let e = raw_index_entries(m);
            assert(e[raw_key(rows[x].properties)] == x);
            assert(e[raw_key(rows[y].properties)] == y);
        }
    }
    Some(m)
}

/// Indexes the state rows by their string form, unless two of them share
/// it.
fn build_untyped_index(
    states: &Vec<RawBlockState>,
    kinds: &Vec<RawBlockProperties>,
    kind_rows: &KindIndex,
) -> (r: Option<UntypedIndex>)
    requires
        !id_mismatch(state_models(states@)),
        !duplicate_kind(kind_models(kinds@)),
        !unknown_kind(state_models(states@), kind_models(kinds@)),
        kind_index_faithful(kind_index_entries(*kind_rows), kind_models(kinds@), kinds.len() as int),
    ensures
        r is None <==> duplicate_untyped(state_models(states@), kind_models(kinds@)),
        r matches Some(m) ==> untyped_index_faithful(
            untyped_index_entries(m),
            state_models(states@),
            kind_models(kinds@),
            states.len() as int,
        ),
{
    let ghost rows = state_models(states@);
    let ghost ks = kind_models(kinds@);
    let mut m = untyped_index_new();
    let mut i: usize = 0;
    while i < states.len()
        invariant
            i <= states.len(),
            rows == state_models(states@),
            ks == kind_models(kinds@),
            !id_mismatch(rows),
            !duplicate_kind(ks),
            !unknown_kind(rows, ks),
            kind_index_faithful(kind_index_entries(*kind_rows), ks, kinds.len() as int),
            untyped_index_faithful(untyped_index_entries(m), rows, ks, i as int),
        decreases states.len() - i,
    {
        assert(rows[i as int].id == i);
        assert(has_kind_row(ks, rows[i as int].kind));
        let found = kind_index_get(kind_rows, states[i].kind.id);
        proof {
            let k0 = kind_row(ks, rows[i as int].kind);
            assert(kind_index_entries(*kind_rows).contains_key(ks[k0].kind.id));
        }
        let k = match found {
            Some(k) => k,
            None => { return None; },
        };
        proof {
            lemma_kind_row_unique(ks, k as int);
            assert(ks[k as int].kind == rows[i as int].kind);
        }
        let prev = untyped_index_insert(
            &mut m,
            kinds[k].namespaced_id.as_str(),
            &states[i].untyped_properties,
            states[i].id,
        );
        assert((kinds[k as int].namespaced_id@, states[i as int].untyped_properties.deep_view())
            == untyped_key(ks, rows[i as int]));
        if let Some(j) = prev {
            assert(untyped_key(ks, rows[j as int]) == untyped_key(ks, rows[i as int]));
            return None;
        }
        i += 1;
    }
    assert(!duplicate_untyped(rows, ks)) by {
        assert forall|x: int, y: int| 0 <= x < y < rows.len() implies untyped_key(
            ks,
            #[trigger] rows[x],
        ) != untyped_key(ks, #[trigger] rows[y]) by {
            let e = untyped_index_entries(m);
            assert(e[untyped_key(ks, rows[x])] == x);
            assert(e[untyped_key(ks, rows[y])] == y);
        }
    }
    Some(m)
}

/// Indexes the default state rows by kind, unless a kind has two of them.
fn build_default_index(states: &Vec<RawBlockState>) -> (r: Option<KindIndex>)
    ensures
        r is None <==> duplicate_default(state_models(states@)),
        r matches Some(m) ==> default_index_faithful(
            kind_index_entries(m),
            state_models(states@),
            states.len() as int,
        ),
{
    let ghost rows = state_models(states@);
    let mut m = kind_index_new();
    let mut i: usize = 0;
    while i < states.len()
        invariant
            i <= states.len(),
            rows == state_models(states@),
            default_index_faithful(kind_index_entries(m), rows, i as int),
        decreases states.len() - i,
    {
        if states[i].default {
            let prev = kind_index_insert(&mut m, states[i].kind.id, i);
            if let Some(j) = prev {
                assert(rows[j as int].default && rows[i as int].default);
                assert(rows[j as int].kind == rows[i as int].kind);
                return None;
            }
        }
        i += 1;
    }
    assert(!duplicate_default(rows)) by {
        assert forall|x: int, y: int|
            0 <= x < y < rows.len() && (#[trigger] rows[x]).default && (
            #[trigger] rows[y]).default implies rows[x].kind != rows[y].kind by {
            let e = kind_index_entries(m);
            assert(e[rows[x].kind.id] == x);
            assert(e[rows[y].kind.id] == y);
        }
    }
    Some(m)
}

/// Whether every state row's kind has a default state.
fn check_defaults_present(states: &Vec<RawBlockState>, defaults: &KindIndex) -> (ok: bool)
    requires
        default_index_faithful(
            kind_index_entries(*defaults),
            state_models(states@),
            states.len() as int,
        ),
    ensures
        ok == !missing_default(state_models(states@)),
{
    let ghost rows = state_models(states@);
    let mut i: usize = 0;
    while i < states.len()
        invariant
            i <= states.len(),
            rows == state_models(states@),
            default_index_faithful(kind_index_entries(*defaults), rows, states.len() as int),
            forall|j: int| 0 <= j < i ==> has_default(rows, (#[trigger] rows[j]).kind),
        decreases states.len() - i,
    {
        let found = kind_index_get(defaults, states[i].kind.id);
        match found {
            Some(d) => {
                assert(rows[d as int].kind == rows[i as int].kind && rows[d as int].default);
            },
            None => {
                assert(!has_default(rows, rows[i as int].kind)) by {
                    if has_default(rows, rows[i as int].kind) {
                        let d = choose|d: int|
                            0 <= d < rows.len() && (#[trigger] rows[d]).kind == rows[i as int].kind
                                && rows[d].default;
                        assert(kind_index_entries(*defaults).contains_key(rows[d].kind.id));
                    }
                }
                return false;
            },
        }
        i += 1;
    }
    true
}

/// The block-state registry: read-only once built.
pub struct BlockRegistry {
    states: Vec<RawBlockState>,
    kinds: Vec<RawBlockProperties>,
    id_mapping: RawIndex,
    kind_rows: KindIndex,
    default_states: KindIndex,
    by_untyped_repr: UntypedIndex,
}

impl BlockRegistry {
    /// The state table, row by row; a state's id is its position here.
    pub closed spec fn states(&self) -> Seq<StateModel> {
        state_models(self.states@)
    }

    /// The per-kind table, row by row.
    pub closed spec fn kinds(&self) -> Seq<KindModel> {
        kind_models(self.kinds@)
    }

    /// Each index holds exactly what the tables say.
    pub closed spec fn indexed(&self) -> bool {
        &&& raw_index_faithful(
            raw_index_entries(self.id_mapping),
            self.states(),
            self.states().len() as int,
        )
        &&& kind_index_faithful(
            kind_index_entries(self.kind_rows),
            self.kinds(),
            self.kinds().len() as int,
        )
        &&& default_index_faithful(
            kind_index_entries(self.default_states),
            self.states(),
            self.states().len() as int,
        )
        &&& untyped_index_faithful(
            untyped_index_entries(self.by_untyped_repr),
            self.states(),
            self.kinds(),
            self.states().len() as int,
        )
    }

    /// The registry's invariant: consistent tables, faithfully indexed.
    #[verifier::type_invariant]
    pub open spec fn wf(&self) -> bool {
        consistent(self.states(), self.kinds()) && self.indexed()
    }

    /// Builds the registry from the state table and the per-kind table.
    ///
    /// Succeeds exactly when the tables are consistent, and then holds them
    /// unchanged; otherwise reports the first fault.
    pub fn new(
        states: Vec<RawBlockState>,
        kinds: Vec<RawBlockProperties>,
    ) -> (r: Result<BlockRegistry, RegistryError>)
        ensures
            r is Ok <==> consistent(state_models(states@), kind_models(kinds@)),
            r matches Ok(registry) ==> registry.wf() && registry.states() == state_models(states@)
                && registry.kinds() == kind_models(kinds@),
            r matches Err(fault) ==> first_fault(state_models(states@), kind_models(kinds@))
                == Some(fault),
    {
        if !check_ids(&states) {
            return Err(RegistryError::IdMismatch);
        }
        if !check_kind_agreement(&states) {
            return Err(RegistryError::KindMismatch);
        }
        let kind_rows = match build_kind_index(&kinds) {
            Some(m) => m,
            None => { return Err(RegistryError::DuplicateKind); },
        };
        if !check_kinds_known(&states, &kinds, &kind_rows) {
            return Err(RegistryError::UnknownKind);
        }
        let id_mapping = match build_raw_index(&states) {
            Some(m) => m,
            None => { return Err(RegistryError::DuplicateProperties); },
        };
        let by_untyped_repr = match build_untyped_index(&states, &kinds, &kind_rows) {
            Some(m) => m,
            None => { return Err(RegistryError::DuplicateUntypedRepr); },
        };
        let default_states = match build_default_index(&states) {
            Some(m) => m,
            None => { return Err(RegistryError::DuplicateDefault); },
        };
        if !check_defaults_present(&states, &default_states) {
            return Err(RegistryError::MissingDefault);
        }
        Ok(BlockRegistry { states, kinds, id_mapping, kind_rows, default_states, by_untyped_repr })
    }

    /// The number of states.
    pub fn state_count(&self) -> (n: usize)
        ensures
            n == self.states().len(),
            n <= 65536,
    {
        proof {
            use_type_invariant(self);
            lemma_table_fits(self.states(), self.kinds());
        }
        self.states.len()
    }

    /// The row of the state with this id, if there is one.
    pub fn raw_state(&self, id: u16) -> (r: Option<&RawBlockState>)
        ensures
            r is Some <==> id < self.states().len(),
            r matches Some(row) ==> row@ == self.states()[id as int],
    {
        let at = id as usize;
        if at < self.states.len() {
            Some(&self.states[at])
        } else {
            None
        }
    }

    /// The id of the state that has exactly these raw properties, if there
    /// is one.
    pub fn id_for_state(&self, state: &RawBlockStateProperties) -> (r: Option<u16>)
        ensures
            r is Some <==> find_properties(self.states(), state@) is Some,
            r matches Some(id) ==> find_properties(self.states(), state@) == Some(id as int),
            r matches Some(id) ==> id < self.states().len() && self.states()[id as int].properties
                == state@,
    {
        proof {
            use_type_invariant(self);
        }
        let found = raw_index_get(&self.id_mapping, state);
        proof {
            let e = raw_index_entries(self.id_mapping);
            match found {
                Some(id) => {
                    let p = self.states()[id as int].properties;
                    assert(raw_key(p) == raw_key(state@));
                    assert(p.kind == state@.kind);
                    assert(p.values == state@.values);
                    lemma_find_properties(self.states(), self.kinds(), id as int);
                },
                None => {
                    assert forall|i: int| 0 <= i < self.states().len() implies (
                    #[trigger] self.states()[i]).properties != state@ by {
                        assert(e.contains_key(raw_key(self.states()[i].properties)));
                    }
                },
            }
        }
        found
    }

    /// The per-kind row of `kind`, if the per-kind table has one.
    pub fn kind_properties(&self, kind: BlockKind) -> (r: Option<&RawBlockProperties>)
        ensures
            r is Some <==> has_kind_row(self.kinds(), kind),
            r matches Some(row) ==> row@ == self.kinds()[kind_row(self.kinds(), kind)],
    {
        proof {
            use_type_invariant(self);
        }
        let found = kind_index_get(&self.kind_rows, kind.id);
        match found {
            Some(k) => {
                proof {
                    lemma_kind_row_unique(self.kinds(), k as int);
                    assert(self.kinds()[k as int].kind == kind);
                }
                Some(&self.kinds[k])
            },
            None => {
                proof {
                    if has_kind_row(self.kinds(), kind) {
                        let k = kind_row(self.kinds(), kind);
                        assert(kind_index_entries(self.kind_rows).contains_key(
                            self.kinds()[k].kind.id,
                        ));
                    }
                }
                None
            },
        }
    }

    /// The id of the default state of `kind`, if the kind has states.
    pub fn default_id(&self, kind: BlockKind) -> (r: Option<u16>)
        ensures
            r is Some <==> find_default(self.states(), kind) is Some,
            r matches Some(id) ==> find_default(self.states(), kind) == Some(id as int),
            r matches Some(id) ==> id < self.states().len() && self.states()[id as int].kind
                == kind && self.states()[id as int].default,
    {
        proof {
            use_type_invariant(self);
        }
        let found = kind_index_get(&self.default_states, kind.id);
        match found {
            Some(d) => {
                proof {
                    assert(self.states()[d as int].kind == kind);
                    assert(self.states()[d as int].id == d);
                    lemma_find_default(self.states(), self.kinds(), d as int);
                }
                Some(self.states[d].id)
            },
            None => {
                proof {
                    if has_default(self.states(), kind) {
                        let d = choose|d: int|
                            0 <= d < self.states().len() && (#[trigger] self.states()[d]).kind
                                == kind && self.states()[d].default;
                        assert(kind_index_entries(self.default_states).contains_key(
                            self.states()[d].kind.id,
                        ));
                    }
                }
                None
            },
        }
    }

    /// The id of the state with this namespaced id and exactly these
    /// name/value pairs in this order, if there is one.
    pub fn id_for_untyped_repr(
        &self,
        namespaced_id: &str,
        property_values: &Vec<(String, String)>,
    ) -> (r: Option<u16>)
        ensures
            r is Some <==> find_untyped(
                self.states(),
                self.kinds(),
                (namespaced_id@, property_values.deep_view()),
            ) is Some,
            r matches Some(id) ==> find_untyped(
                self.states(),
                self.kinds(),
                (namespaced_id@, property_values.deep_view()),
            ) == Some(id as int),
            r matches Some(id) ==> id < self.states().len() && untyped_key(
                self.kinds(),
                self.states()[id as int],
            ) == (namespaced_id@, property_values.deep_view()),
    {
        proof {
            use_type_invariant(self);
        }
        let found = untyped_index_get(&self.by_untyped_repr, namespaced_id, property_values);
        proof {
            let e = untyped_index_entries(self.by_untyped_repr);
            if let Some(id) = found {
                lemma_find_untyped(self.states(), self.kinds(), id as int);
            }
            if found is None {
                assert forall|i: int| 0 <= i < self.states().len() implies untyped_key(
                    self.kinds(),
                    #[trigger] self.states()[i],
                ) != (namespaced_id@, property_values.deep_view()) by {
                    assert(e.contains_key(untyped_key(self.kinds(), self.states()[i])));
                }
            }
        }
        found
    }
}

} // verus!
