//! The rows a registry is built from, and their mathematical views.

use vstd::prelude::*;

verus! {

/// A block kind, such as "stone" or "chest", named by its number in the
/// data the registry was built from.
#[derive(Clone, Copy, Debug, PartialEq, Eq, Structural, Hash)]
pub struct BlockKind {
    pub id: u16,
}

/// A coarser classification that several block kinds may share.
#[derive(Clone, Copy, Debug, PartialEq, Eq, Structural, Hash)]
pub struct SimplifiedBlockKind {
    pub id: u16,
}

/// The canonical key of a state: the owning kind and, for every property
/// slot, the encoded value the state has there (`None` where the kind has no
/// such property).
#[derive(Clone, Debug)]
pub struct RawBlockStateProperties {
    pub kind: BlockKind,
    pub values: Vec<Option<u16>>,
}

/// What a `RawBlockStateProperties` stands for.
pub struct PropertiesModel {
    pub kind: BlockKind,
    pub values: Seq<Option<u16>>,
}

impl View for RawBlockStateProperties {
    type V = PropertiesModel;

    open spec fn view(&self) -> PropertiesModel {
        PropertiesModel { kind: self.kind, values: self.values@ }
    }
}

/// The values each property slot may take for one kind. A slot with no
/// allowed value is a property the kind does not have.
#[derive(Clone, Debug)]
pub struct ValidProperties {
    pub domains: Vec<Vec<u16>>,
}

impl View for ValidProperties {
    type V = Seq<Seq<u16>>;

    open spec fn view(&self) -> Seq<Seq<u16>> {
        Seq::new(self.domains@.len(), |i: int| self.domains@[i]@)
    }
}

/// Whether `value` is allowed in `slot` by the domain description `valid`.
pub open spec fn domain_allows(valid: Seq<Seq<u16>>, slot: int, value: u16) -> bool {
    0 <= slot < valid.len() && valid[slot].contains(value)
}

impl ValidProperties {
    /// Whether `value` is one of the values that `slot` may take.
    pub fn allows(&self, slot: usize, value: u16) -> (r: bool)
        ensures
            r == domain_allows(self@, slot as int, value),
    {
        if slot >= self.domains.len() {
            return false;
        }
        let domain = &self.domains[slot];
        let mut i: usize = 0;
        while i < domain.len()
            invariant
                i <= domain.len(),
                slot < self.domains.len(),
                self@[slot as int] == domain@,
                forall|j: int| 0 <= j < i ==> domain@[j] != value,
            decreases domain.len() - i,
        {
            if domain[i] == value {
                return true;
            }
            i += 1;
        }
        false
    }
}

/// One row of the state table.
#[derive(Clone, Debug)]
pub struct RawBlockState {
    pub id: u16,
    pub kind: BlockKind,
    pub properties: RawBlockStateProperties,
    pub untyped_properties: Vec<(String, String)>,
    pub default: bool,
}

/// What a `RawBlockState` stands for.
pub struct StateModel {
    pub id: u16,
    pub kind: BlockKind,
    pub properties: PropertiesModel,
    pub untyped_properties: Seq<(Seq<char>, Seq<char>)>,
    pub default: bool,
}

impl View for RawBlockState {
    type V = StateModel;

    open spec fn view(&self) -> StateModel {
        StateModel {
            id: self.id,
            kind: self.kind,
            properties: self.properties@,
            untyped_properties: self.untyped_properties.deep_view(),
            default: self.default,
        }
    }
}

/// One row of the per-kind table: the kind's stable string identifier, its
/// simplified kind and the domain of each of its properties.
#[derive(Clone, Debug)]
pub struct RawBlockProperties {
    pub kind: BlockKind,
    pub namespaced_id: String,
    pub simplified_kind: SimplifiedBlockKind,
    pub valid_properties: ValidProperties,
}

/// What a `RawBlockProperties` stands for.
pub struct KindModel {
    pub kind: BlockKind,
    pub namespaced_id: Seq<char>,
    pub simplified_kind: SimplifiedBlockKind,
    pub valid_properties: Seq<Seq<u16>>,
}

impl View for RawBlockProperties {
    type V = KindModel;

    open spec fn view(&self) -> KindModel {
        KindModel {
            kind: self.kind,
            namespaced_id: self.namespaced_id@,
            simplified_kind: self.simplified_kind,
            valid_properties: self.valid_properties@,
        }
    }
}

/// The views of the rows of a state table, in order.
pub open spec fn state_models(rows: Seq<RawBlockState>) -> Seq<StateModel> {
    Seq::new(rows.len(), |i: int| rows[i]@)
}

/// The views of the rows of a per-kind table, in order.
pub open spec fn kind_models(rows: Seq<RawBlockProperties>) -> Seq<KindModel> {
    Seq::new(rows.len(), |i: int| rows[i]@)
}

} // verus!
