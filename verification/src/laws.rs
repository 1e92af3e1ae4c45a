//! What holds of every registry and every state, proved from the contracts.

use vstd::prelude::*;

use crate::block_data::BlockData;
use crate::registry::find_default;
use crate::registry::find_properties;
use crate::registry::find_untyped;
use crate::registry::has_default;
use crate::registry::lemma_find_default;
use crate::registry::lemma_find_properties;
use crate::registry::lemma_find_untyped;
use crate::registry::lemma_table_fits;
use crate::registry::untyped_key;
use crate::registry::BlockRegistry;
use crate::state::lemma_same_id_same_state;
use crate::state::BlockState;

verus! {

/// Every kind that has a state has exactly one default state, and it is the
/// one that `BlockState::new` returns for the kind.
pub proof fn law_one_default_per_kind(registry: &BlockRegistry, state: BlockState)
    requires
        registry.wf(),
        state.valid_in(registry),
    ensures
        find_default(registry.states(), state.row(registry).kind) is Some,
        forall|other: BlockState|
            other.valid_in(registry) && (#[trigger] other.row(registry)).kind == state.row(
                registry,
            ).kind && other.row(registry).default ==> find_default(
                registry.states(),
                state.row(registry).kind,
            ) == Some(other.spec_id() as int),
        forall|a: BlockState, b: BlockState|
            a.valid_in(registry) && b.valid_in(registry) && (#[trigger] a.row(registry)).default && (
            #[trigger] b.row(registry)).default && a.row(registry).kind == b.row(registry).kind
                ==> a == b,
{
    let states = registry.states();
    let kind = state.row(registry).kind;
    assert(has_default(states, kind));
    assert forall|other: BlockState|
        other.valid_in(registry) && (#[trigger] other.row(registry)).kind == kind && other.row(
            registry,
        ).default implies find_default(states, kind) == Some(other.spec_id() as int) by {
        lemma_find_default(states, registry.kinds(), other.spec_id() as int);
    }
    assert forall|a: BlockState, b: BlockState|
        a.valid_in(registry) && b.valid_in(registry) && (#[trigger] a.row(registry)).default && (
        #[trigger] b.row(registry)).default && a.row(registry).kind == b.row(
            registry,
        ).kind implies a == b by {
        lemma_find_default(states, registry.kinds(), a.spec_id() as int);
        lemma_find_default(states, registry.kinds(), b.spec_id() as int);
        lemma_same_id_same_state(a, b);
    }
}

/// Looking a state up by its own namespaced id and its own property values
/// finds that state.
pub proof fn law_untyped_round_trip(registry: &BlockRegistry, state: BlockState)
    requires
        registry.wf(),
        state.valid_in(registry),
    ensures
        find_untyped(
            registry.states(),
            registry.kinds(),
            (state.kind_model(registry).namespaced_id, state.row(registry).untyped_properties),
        ) == Some(state.spec_id() as int),
{
    lemma_find_untyped(registry.states(), registry.kinds(), state.spec_id() as int);
    assert(untyped_key(registry.kinds(), state.row(registry)) == (
        state.kind_model(registry).namespaced_id,
        state.row(registry).untyped_properties,
    ));
}

/// Looking a state up by its own raw properties finds that state.
pub proof fn law_raw_round_trip(registry: &BlockRegistry, state: BlockState)
    requires
        registry.wf(),
        state.valid_in(registry),
    ensures
        find_properties(registry.states(), state.row(registry).properties) == Some(
            state.spec_id() as int,
        ),
{
    lemma_find_properties(registry.states(), registry.kinds(), state.spec_id() as int);
}

/// Decoding a typed view from a state and applying it unchanged finds the
/// same state: `set_data` then leaves the handle as it was.
pub proof fn law_view_round_trip<T: BlockData>(registry: &BlockRegistry, state: BlockState)
    requires
        registry.wf(),
        state.valid_in(registry),
        T::decoded(state.row(registry).properties, state.kind_model(registry).valid_properties)
            is Some,
    ensures
        find_properties(
            registry.states(),
            T::decoded(
                state.row(registry).properties,
                state.kind_model(registry).valid_properties,
            ).unwrap().applied(state.row(registry).properties),
        ) == Some(state.spec_id() as int),
{
    T::lemma_decoded_applies_back(
        state.row(registry).properties,
        state.kind_model(registry).valid_properties,
    );
    lemma_find_properties(registry.states(), registry.kinds(), state.spec_id() as int);
}

/// Two states are equal exactly when their ids are equal, and equal states
/// read the same row and the same per-kind row from a registry.
pub proof fn law_equality_is_by_id(registry: &BlockRegistry, a: BlockState, b: BlockState)
    ensures
        a == b <==> a.spec_id() == b.spec_id(),
        a == b ==> a.row(registry) == b.row(registry) && a.kind_model(registry) == b.kind_model(
            registry,
        ) && a.valid_in(registry) == b.valid_in(registry),
{
    if a.spec_id() == b.spec_id() {
        lemma_same_id_same_state(a, b);
    }
}

/// The ids of a registry's states are exactly the numbers below the number
/// of states, and there are at most 65536 of them.
pub proof fn law_ids_are_dense(registry: &BlockRegistry, state: BlockState)
    requires
        registry.wf(),
    ensures
        registry.states().len() <= 65536,
        state.valid_in(registry) ==> state.row(registry).id == state.spec_id(),
{
    lemma_table_fits(registry.states(), registry.kinds());
}

} // verus!
