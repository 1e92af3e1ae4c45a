//! The block-state handle: a numeric id, read through a registry.

use vstd::prelude::*;

use crate::block_data::BlockData;
use crate::data::BlockKind;
use crate::data::KindModel;
use crate::data::RawBlockState;
use crate::data::RawBlockStateProperties;
use crate::data::SimplifiedBlockKind;
use crate::data::StateModel;
use crate::data::ValidProperties;
use crate::registry::find_default;
use crate::registry::find_properties;
use crate::registry::find_untyped;
use crate::registry::has_default;
use crate::registry::has_kind_row;
use crate::registry::kind_row;
use crate::registry::lemma_find_default;
use crate::registry::lemma_table_fits;
use crate::registry::BlockRegistry;

verus! {

/// A block state: one combination of a block kind and property values.
///
/// The handle holds only the state's numeric id. Ids are dense and start at
/// zero; they mean something only together with the registry that gave
/// them. Equality, ordering and hashing go by the id alone.
#[derive(Clone, Copy, Debug, PartialEq, Eq, Structural, PartialOrd, Ord, Hash)]
pub struct BlockState {
    id: u16,
}

impl Default for BlockState {
    /// The state with id zero.
    fn default() -> (r: Self)
        ensures
            r.spec_id() == 0,
    {
        BlockState { id: 0 }
    }
}

/// A copy of raw properties.
fn copy_properties(raw: &RawBlockStateProperties) -> (r: RawBlockStateProperties)
    ensures
        r@ == raw@,
{
    let mut values: Vec<Option<u16>> = Vec::new();
    let mut i: usize = 0;
    while i < raw.values.len()
        invariant
            i <= raw.values.len(),
            values@ == raw.values@.subrange(0, i as int),
        decreases raw.values.len() - i,
    {
        values.push(raw.values[i]);
        assert(values@ == raw.values@.subrange(0, i + 1));
        i += 1;
    }
    assert(values@ == raw.values@);
    RawBlockStateProperties { kind: raw.kind, values }
}

impl BlockState {
    /// The numeric id.
    pub closed spec fn spec_id(self) -> u16 {
        self.id
    }

    /// Whether the id indexes a row of the registry's state table.
    pub open spec fn valid_in(self, registry: &BlockRegistry) -> bool {
        self.spec_id() < registry.states().len()
    }

    /// The row of the state table that the id indexes.
    pub open spec fn row(self, registry: &BlockRegistry) -> StateModel {
        registry.states()[self.spec_id() as int]
    }

    /// The per-kind row of this state's kind.
    pub open spec fn kind_model(self, registry: &BlockRegistry) -> KindModel {
        registry.kinds()[kind_row(registry.kinds(), self.row(registry).kind)]
    }

    /// Gets the default block state for the given block kind.
    ///
    /// The kind must have states in the registry.
    pub fn new(registry: &BlockRegistry, kind: BlockKind) -> (r: Self)
        requires
            find_default(registry.states(), kind) is Some,
        ensures
            find_default(registry.states(), kind) == Some(r.spec_id() as int),
            r.valid_in(registry),
            r.row(registry).kind == kind,
            r.row(registry).default,
    {
        match registry.default_id(kind) {
            Some(id) => BlockState { id },
            None => vstd::pervasive::unreached(),
        }
    }

    /// Gets the kind of this block.
    pub fn kind(self, registry: &BlockRegistry) -> (r: BlockKind)
        requires
            self.valid_in(registry),
        ensures
            r == self.row(registry).kind,
    {
        self.raw(registry).kind
    }

    /// Gets the simplified kind of this block.
    pub fn simplified_kind(self, registry: &BlockRegistry) -> (r: SimplifiedBlockKind)
        requires
            self.valid_in(registry),
        ensures
            r == self.kind_model(registry).simplified_kind,
    {
        let kind = self.kind(registry);
        proof {
            use_type_invariant(registry);
            assert(has_kind_row(registry.kinds(), self.row(registry).kind));
        }
        match registry.kind_properties(kind) {
            Some(row) => row.simplified_kind,
            None => vstd::pervasive::unreached(),
        }
    }

    /// Gets this block as a typed view.
    ///
    /// Returns `None` where the state's kind does not support the view. The
    /// view is a copy: changing it changes no state until it is handed to
    /// `set_data`.
    pub fn data_as<T: BlockData>(self, registry: &BlockRegistry) -> (r: Option<T>)
        requires
            self.valid_in(registry),
        ensures
            r == T::decoded(self.row(registry).properties, self.kind_model(registry).valid_properties),
    {
        T::from_raw(&self.raw(registry).properties, self.get_valid_properties(registry))
    }

    /// Applies the given typed view to this block state.
    ///
    /// All property values in `data` override those of `self`. Where the
    /// registry has a state with the resulting properties, `self` becomes
    /// that state and the result is `true`; where it has none, `self` is
    /// left as it was and the result is `false`.
    pub fn set_data<T: BlockData>(&mut self, registry: &BlockRegistry, data: T) -> (found: bool)
        requires
            old(self).valid_in(registry),
        ensures
            found == (find_properties(
                registry.states(),
                data.applied(old(self).row(registry).properties),
            ) is Some),
            found ==> find_properties(
                registry.states(),
                data.applied(old(self).row(registry).properties),
            ) == Some(final(self).spec_id() as int),
            !found ==> *final(self) == *old(self),
            final(self).valid_in(registry),
            final(self).row(registry).kind == old(self).row(registry).kind,
    {
        let mut raw = copy_properties(&self.raw(registry).properties);
        data.apply(&mut raw);
        proof {
            use_type_invariant(registry);
            data.lemma_applied_keeps_kind(self.row(registry).properties);
            assert(self.row(registry).properties.kind == self.row(registry).kind);
        }
        match Self::from_raw(registry, &raw) {
            Some(new_block) => {
                proof {
                    assert(new_block.row(registry).properties.kind == new_block.row(registry).kind);
                }
                *self = new_block;
                true
            },
            None => false,
        }
    }

    /// Returns whether this is the default block state for the block kind.
    pub fn is_default(self, registry: &BlockRegistry) -> (r: bool)
        requires
            self.valid_in(registry),
        ensures
            r == self.row(registry).default,
            r == (find_default(registry.states(), self.row(registry).kind) == Some(
                self.spec_id() as int,
            )),
    {
        proof {
            use_type_invariant(registry);
            let states = registry.states();
            let kind = self.row(registry).kind;
            lemma_table_fits(states, registry.kinds());
            assert(has_default(states, kind));
            if self.row(registry).default {
                lemma_find_default(states, registry.kinds(), self.spec_id() as int);
            }
        }
        self.raw(registry).default
    }

    /// Gets the id of this block state.
    ///
    /// Ids are not stable between registries built from different tables.
    #[verifier::when_used_as_spec(spec_id)]
    pub fn id(self) -> (r: u16)
        ensures
            r == self.spec_id(),
    {
        self.id
    }

    /// Creates a block state from an id; `None` where the registry has no
    /// state with that id.
    pub fn from_id(registry: &BlockRegistry, id: u16) -> (r: Option<Self>)
        ensures
            r is Some <==> id < registry.states().len(),
            r matches Some(state) ==> state.spec_id() == id && state.valid_in(registry),
    {
        match registry.raw_state(id) {
            Some(_) => Some(BlockState { id }),
            None => None,
        }
    }

    /// A handle with the given id, as read back from storage or from the
    /// network. The id may index no row of a registry: test the handle with
    /// `is_valid` before reading through it.
    pub fn from_id_unchecked(id: u16) -> (r: Self)
        ensures
            r.spec_id() == id,
    {
        BlockState { id }
    }

    /// Determines whether this block state is valid: whether the registry has
    /// a state with its id.
    pub fn is_valid(self, registry: &BlockRegistry) -> (r: bool)
        ensures
            r == self.valid_in(registry),
    {
        registry.raw_state(self.id).is_some()
    }

    /// Gets the stable namespaced id of the block kind.
    ///
    /// Together with `property_values` this is the form in which a state is
    /// written down to be read again by another registry.
    pub fn namespaced_id<'a>(&self, registry: &'a BlockRegistry) -> (r: &'a str)
        requires
            self.valid_in(registry),
        ensures
            r@ == self.kind_model(registry).namespaced_id,
    {
        let kind = self.kind(registry);
        proof {
            use_type_invariant(registry);
            assert(has_kind_row(registry.kinds(), self.row(registry).kind));
        }
        match registry.kind_properties(kind) {
            Some(row) => row.namespaced_id.as_str(),
            None => vstd::pervasive::unreached(),
        }
    }

    /// The (name, value) pairs of this state's properties, in the order in
    /// which the state table holds them.
    pub fn property_values<'a>(&self, registry: &'a BlockRegistry) -> (r: &'a Vec<(String, String)>)
        requires
            self.valid_in(registry),
        ensures
            r.deep_view() == self.row(registry).untyped_properties,
    {
        &self.raw(registry).untyped_properties
    }

    /// Creates a block state from its namespaced id and property values.
    ///
    /// The pairs must be those of the state, in the state's own order:
    /// the lookup is exact. `None` where no state matches.
    pub fn from_namespaced_id_and_property_values(
        registry: &BlockRegistry,
        namespaced_id: &str,
        property_values: &Vec<(String, String)>,
    ) -> (r: Option<Self>)
        ensures
            r is Some <==> find_untyped(
                registry.states(),
                registry.kinds(),
                (namespaced_id@, property_values.deep_view()),
            ) is Some,
            r matches Some(state) ==> find_untyped(
                registry.states(),
                registry.kinds(),
                (namespaced_id@, property_values.deep_view()),
            ) == Some(state.spec_id() as int),
            r matches Some(state) ==> state.valid_in(registry) && state.kind_model(
                registry,
            ).namespaced_id == namespaced_id@ && state.row(registry).untyped_properties
                == property_values.deep_view(),
    {
        match registry.id_for_untyped_repr(namespaced_id, property_values) {
            Some(id) => Some(BlockState { id }),
            None => None,
        }
    }

    /// The domains of the properties of this state's kind.
    pub fn get_valid_properties<'a>(&self, registry: &'a BlockRegistry) -> (r: &'a ValidProperties)
        requires
            self.valid_in(registry),
        ensures
            r@ == self.kind_model(registry).valid_properties,
    {
        let kind = self.kind(registry);
        proof {
            use_type_invariant(registry);
            assert(has_kind_row(registry.kinds(), self.row(registry).kind));
        }
        match registry.kind_properties(kind) {
            Some(row) => &row.valid_properties,
            None => vstd::pervasive::unreached(),
        }
    }

    /// What `debug_fields` lists: the kind's namespaced id under the name
    /// "kind", then every (name, value) pair in the state's own order.
    pub open spec fn debug_model(self, registry: &BlockRegistry) -> Seq<(Seq<char>, Seq<char>)> {
        seq![("kind"@, self.kind_model(registry).namespaced_id)] + self.row(
            registry,
        ).untyped_properties
    }

    /// The fields of a readable rendering of this state, in order: the kind,
    /// then each property with its value.
    pub fn debug_fields(&self, registry: &BlockRegistry) -> (r: Vec<(String, String)>)
        requires
            self.valid_in(registry),
        ensures
            r.deep_view() == self.debug_model(registry),
    {
        let name = self.namespaced_id(registry);
        let pairs = self.property_values(registry);
        let mut out: Vec<(String, String)> = Vec::new();
        out.push(("kind".to_owned(), name.to_owned()));
        let ghost head = seq![("kind"@, name@)];
        assert(out.deep_view() == head);
        let mut i: usize = 0;
        while i < pairs.len()
            invariant
                i <= pairs.len(),
                out.deep_view() == head + pairs.deep_view().subrange(0, i as int),
            decreases pairs.len() - i,
        {
            let pair = &pairs[i];
            let copy = (pair.0.clone(), pair.1.clone());
            assert(copy.deep_view() == pairs.deep_view()[i as int]);
            let ghost before = out.deep_view();
            out.push(copy);
            assert(out.deep_view() == before.push(pairs.deep_view()[i as int]));
            assert(out.deep_view() == head + pairs.deep_view().subrange(0, i + 1));
            i += 1;
        }
        assert(pairs.deep_view().subrange(0, pairs.len() as int) == pairs.deep_view());
        out
    }

    /// Gets the row of the state table for this block state.
    pub fn raw<'a>(&self, registry: &'a BlockRegistry) -> (r: &'a RawBlockState)
        requires
            self.valid_in(registry),
        ensures
            r@ == self.row(registry),
    {
        match registry.raw_state(self.id) {
            Some(row) => row,
            None => vstd::pervasive::unreached(),
        }
    }

    /// Creates a block state from its raw properties; `None` where no state
    /// has exactly these.
    pub fn from_raw(registry: &BlockRegistry, raw: &RawBlockStateProperties) -> (r: Option<Self>)
        ensures
            r is Some <==> find_properties(registry.states(), raw@) is Some,
            r matches Some(state) ==> find_properties(registry.states(), raw@) == Some(
                state.spec_id() as int,
            ),
            r matches Some(state) ==> state.valid_in(registry) && state.row(registry).properties
                == raw@,
    {
        match registry.id_for_state(raw) {
            Some(id) => Some(BlockState { id }),
            None => None,
        }
    }
}

/// A state is its id: two states with the same id are the same state.
pub proof fn lemma_same_id_same_state(a: BlockState, b: BlockState)
    requires
        a.spec_id() == b.spec_id(),
    ensures
        a == b,
{
}

} // verus!
