//! Typed property views.
//!
//! A view is a small value that stands for some of a state's properties. Any
//! number of view types may exist; each says how it is decoded from raw
//! properties and how it overrides them.

use vstd::prelude::*;

use crate::data::domain_allows;
use crate::data::PropertiesModel;
use crate::data::RawBlockStateProperties;
use crate::data::ValidProperties;

verus! {

/// A typed view of some of a state's properties.
pub trait BlockData: Sized {
    /// The view that raw properties decode to; `None` where the kind that
    /// owns them does not support this view.
    spec fn decoded(raw: PropertiesModel, valid: Seq<Seq<u16>>) -> Option<Self>;

    /// The raw properties with this view's values written over them.
    spec fn applied(self, raw: PropertiesModel) -> PropertiesModel;

    /// Decodes the view from raw properties, given the owning kind's domains.
    fn from_raw(raw: &RawBlockStateProperties, valid: &ValidProperties) -> (r: Option<Self>)
        ensures
            r == Self::decoded(raw@, valid@),
    ;

    /// Writes this view's values over the raw properties.
    fn apply(&self, raw: &mut RawBlockStateProperties)
        ensures
            final(raw)@ == self.applied(old(raw)@),
    ;

    /// A view never changes the kind that raw properties belong to.
    proof fn lemma_applied_keeps_kind(self, raw: PropertiesModel)
        ensures
            self.applied(raw).kind == raw.kind,
    ;

    /// Writing back what was decoded changes nothing.
    proof fn lemma_decoded_applies_back(raw: PropertiesModel, valid: Seq<Seq<u16>>)
        requires
            Self::decoded(raw, valid) is Some,
        ensures
            Self::decoded(raw, valid).unwrap().applied(raw) == raw,
    ;
}

/// The view of the single property in slot `SLOT`.
#[derive(Clone, Copy, Debug, PartialEq, Eq, Hash)]
pub struct Property<const SLOT: usize> {
    /// The property's encoded value.
    pub value: u16,
}

impl<const SLOT: usize> Property<SLOT> {
    /// A view that holds `value`.
    pub fn new(value: u16) -> (r: Self)
        ensures
            r.value == value,
    {
        Property { value }
    }

    /// Replaces the value if the kind's domains allow the new one in this
    /// slot, and says whether it did.
    pub fn set_value(&mut self, value: u16, valid: &ValidProperties) -> (changed: bool)
        ensures
            changed == domain_allows(valid@, SLOT as int, value),
            final(self).value == (if changed {
                value
            } else {
                old(self).value
            }),
    {
        if valid.allows(SLOT, value) {
            self.value = value;
            true
        } else {
            false
        }
    }
}

impl<const SLOT: usize> BlockData for Property<SLOT> {
    open spec fn decoded(raw: PropertiesModel, valid: Seq<Seq<u16>>) -> Option<Self> {
        if SLOT < raw.values.len() {
            match raw.values[SLOT as int] {
                Some(value) => Some(Property { value }),
                None => None,
            }
        } else {
            None
        }
    }

    open spec fn applied(self, raw: PropertiesModel) -> PropertiesModel {
        if SLOT < raw.values.len() {
            PropertiesModel {
                kind: raw.kind,
                values: raw.values.update(SLOT as int, Some(self.value)),
            }
        } else {
            raw
        }
    }

    fn from_raw(raw: &RawBlockStateProperties, valid: &ValidProperties) -> (r: Option<Self>) {
        if SLOT < raw.values.len() {
            match raw.values[SLOT] {
                Some(value) => Some(Property { value }),
                None => None,
            }
        } else {
            None
        }
    }

    fn apply(&self, raw: &mut RawBlockStateProperties) {
        if SLOT < raw.values.len() {
            raw.values.set(SLOT, Some(self.value));
        }
    }

    proof fn lemma_applied_keeps_kind(self, raw: PropertiesModel) {
    }

    proof fn lemma_decoded_applies_back(raw: PropertiesModel, valid: Seq<Seq<u16>>) {
        assert(raw.values.update(SLOT as int, raw.values[SLOT as int]) =~= raw.values);
    }
}

} // verus!
