use block_states::BlockKind;
use block_states::BlockRegistry;
use block_states::BlockState;
use block_states::Property;
use block_states::RawBlockProperties;
use block_states::RawBlockState;
use block_states::RawBlockStateProperties;
use block_states::RegistryError;
use block_states::SimplifiedBlockKind;
use block_states::ValidProperties;

const STONE: BlockKind = BlockKind { id: 0 };
const CHEST: BlockKind = BlockKind { id: 1 };
const LEVER: BlockKind = BlockKind { id: 7 };

const FACING: usize = 0;
const CHEST_TYPE: usize = 1;
const WATERLOGGED: usize = 2;

const FACINGS: [&str; 4] = ["north", "south", "west", "east"];
const CHEST_TYPES: [&str; 3] = ["single", "left", "right"];
const BOOLS: [&str; 2] = ["true", "false"];

fn pair(name: &str, value: &str) -> (String, String) {
    (name.to_string(), value.to_string())
}

fn stone_row(id: u16) -> RawBlockState {
    RawBlockState {
        id,
        kind: STONE,
        properties: RawBlockStateProperties { kind: STONE, values: vec![None, None, None] },
        untyped_properties: vec![],
        default: true,
    }
}

fn chest_row(id: u16, facing: u16, chest_type: u16, waterlogged: u16) -> RawBlockState {
    RawBlockState {
        id,
        kind: CHEST,
        properties: RawBlockStateProperties {
            kind: CHEST,
            values: vec![Some(facing), Some(chest_type), Some(waterlogged)],
        },
        untyped_properties: vec![
            pair("facing", FACINGS[facing as usize]),
            pair("type", CHEST_TYPES[chest_type as usize]),
            pair("waterlogged", BOOLS[waterlogged as usize]),
        ],
        default: facing == 0 && chest_type == 0 && waterlogged == 1,
    }
}

fn lever_row(id: u16, facing: u16, default: bool) -> RawBlockState {
    RawBlockState {
        id,
        kind: LEVER,
        properties: RawBlockStateProperties { kind: LEVER, values: vec![Some(facing), None, None] },
        untyped_properties: vec![pair("facing", FACINGS[facing as usize])],
        default,
    }
}

/// Stone (id 0), the 24 chest states (ids 1 to 24), four lever states (25 to 28).
fn state_table() -> Vec<RawBlockState> {
    let mut rows = vec![stone_row(0)];
    for facing in 0..4u16 {
        for chest_type in 0..3u16 {
            for waterlogged in 0..2u16 {
                let id = rows.len() as u16;
                rows.push(chest_row(id, facing, chest_type, waterlogged));
            }
        }
    }
    for facing in 0..4u16 {
        let id = rows.len() as u16;
        rows.push(lever_row(id, facing, facing == 2));
    }
    rows
}

fn kind_table() -> Vec<RawBlockProperties> {
    vec![
        RawBlockProperties {
            kind: CHEST,
            namespaced_id: "minecraft:chest".to_string(),
            simplified_kind: SimplifiedBlockKind { id: 40 },
            valid_properties: ValidProperties {
                domains: vec![vec![0, 1, 2, 3], vec![0, 1, 2], vec![0, 1]],
            },
        },
        RawBlockProperties {
            kind: STONE,
            namespaced_id: "minecraft:stone".to_string(),
            simplified_kind: SimplifiedBlockKind { id: 3 },
            valid_properties: ValidProperties { domains: vec![vec![], vec![], vec![]] },
        },
        RawBlockProperties {
            kind: LEVER,
            namespaced_id: "minecraft:lever".to_string(),
            simplified_kind: SimplifiedBlockKind { id: 40 },
            valid_properties: ValidProperties { domains: vec![vec![0, 1, 2, 3], vec![], vec![]] },
        },
    ]
}

fn registry() -> BlockRegistry {
    BlockRegistry::new(state_table(), kind_table()).unwrap()
}

fn fault(states: Vec<RawBlockState>, kinds: Vec<RawBlockProperties>) -> RegistryError {
    match BlockRegistry::new(states, kinds) {
        Ok(_) => panic!("the tables were accepted"),
        Err(fault) => fault,
    }
}

#[test]
fn block_registry_creates_successfully() {
    let _ = BlockRegistry::new(state_table(), kind_table());
    assert!(BlockRegistry::new(state_table(), kind_table()).is_ok());
}

#[test]
fn registry_counts_its_states() {
    assert_eq!(registry().state_count(), 29);
}

#[test]
fn empty_tables_make_an_empty_registry() {
    let registry = BlockRegistry::new(vec![], vec![]).unwrap();
    assert_eq!(registry.state_count(), 0);
    assert_eq!(BlockState::from_id(&registry, 0), None);
    assert!(!BlockState::default().is_valid(&registry));
    assert_eq!(registry.default_id(STONE), None);
    assert!(registry.kind_properties(STONE).is_none());
}

#[test]
fn from_id_accepts_every_id_in_range() {
    let registry = registry();
    for id in 0..29u16 {
        let state = BlockState::from_id(&registry, id).unwrap();
        assert_eq!(state.id(), id);
        assert!(state.is_valid(&registry));
        assert_eq!(state.raw(&registry).id, id);
    }
}

#[test]
fn from_id_rejects_ids_out_of_range() {
    let registry = registry();
    assert_eq!(BlockState::from_id(&registry, 29), None);
    assert_eq!(BlockState::from_id(&registry, 30), None);
    assert_eq!(BlockState::from_id(&registry, 1000), None);
    assert_eq!(BlockState::from_id(&registry, u16::MAX), None);
}

#[test]
fn raw_state_is_the_row_at_the_id() {
    let registry = registry();
    let row = registry.raw_state(1).unwrap();
    assert_eq!(row.id, 1);
    assert_eq!(row.kind, CHEST);
    assert_eq!(row.properties.values, vec![Some(0), Some(0), Some(0)]);
    assert!(registry.raw_state(29).is_none());
}

#[test]
fn every_kind_has_exactly_one_default() {
    let registry = registry();
    for kind in [STONE, CHEST, LEVER] {
        let mut defaults = vec![];
        for id in 0..29u16 {
            let state = BlockState::from_id(&registry, id).unwrap();
            if state.kind(&registry) == kind && state.is_default(&registry) {
                defaults.push(state);
            }
        }
        assert_eq!(defaults.len(), 1);
        assert_eq!(BlockState::new(&registry, kind), defaults[0]);
    }
}

#[test]
fn new_gives_the_default_state() {
    let registry = registry();
    assert_eq!(BlockState::new(&registry, STONE).id(), 0);
    assert_eq!(BlockState::new(&registry, CHEST).id(), 2);
    assert_eq!(BlockState::new(&registry, LEVER).id(), 27);
    assert_eq!(registry.default_id(CHEST), Some(2));
    assert_eq!(registry.default_id(BlockKind { id: 5 }), None);
}

#[test]
fn accessors_read_the_row() {
    let registry = registry();
    let state = BlockState::from_id(&registry, 9).unwrap();
    assert_eq!(state.kind(&registry), CHEST);
    assert_eq!(state.simplified_kind(&registry), SimplifiedBlockKind { id: 40 });
    assert_eq!(state.namespaced_id(&registry), "minecraft:chest");
    assert!(!state.is_default(&registry));
    assert_eq!(
        state.property_values(&registry),
        &vec![pair("facing", "south"), pair("type", "left"), pair("waterlogged", "true")]
    );
    assert_eq!(
        state.get_valid_properties(&registry).domains,
        vec![vec![0, 1, 2, 3], vec![0, 1, 2], vec![0, 1]]
    );
    let stone = BlockState::from_id(&registry, 0).unwrap();
    assert_eq!(stone.kind(&registry), STONE);
    assert_eq!(stone.simplified_kind(&registry), SimplifiedBlockKind { id: 3 });
    assert_eq!(stone.namespaced_id(&registry), "minecraft:stone");
    assert!(stone.property_values(&registry).is_empty());
    assert!(stone.is_default(&registry));
}

#[test]
fn untyped_round_trip_finds_every_state() {
    let registry = registry();
    for id in 0..29u16 {
        let state = BlockState::from_id(&registry, id).unwrap();
        let again = BlockState::from_namespaced_id_and_property_values(
            &registry,
            state.namespaced_id(&registry),
            state.property_values(&registry),
        );
        assert_eq!(again, Some(state));
    }
}

#[test]
fn untyped_lookup_is_exact() {
    let registry = registry();
    let found = BlockState::from_namespaced_id_and_property_values(
        &registry,
        "minecraft:lever",
        &vec![pair("facing", "east")],
    );
    assert_eq!(found.map(|s| s.id()), Some(28));
    // another kind, an unknown kind, a missing pair, an unknown value
    let pairs = vec![pair("facing", "east")];
    assert_eq!(
        BlockState::from_namespaced_id_and_property_values(&registry, "minecraft:chest", &pairs),
        None
    );
    assert_eq!(
        BlockState::from_namespaced_id_and_property_values(&registry, "minecraft:dirt", &pairs),
        None
    );
    assert_eq!(
        BlockState::from_namespaced_id_and_property_values(&registry, "minecraft:lever", &vec![]),
        None
    );
    assert_eq!(
        BlockState::from_namespaced_id_and_property_values(
            &registry,
            "minecraft:lever",
            &vec![pair("facing", "up")]
        ),
        None
    );
    assert_eq!(
        BlockState::from_namespaced_id_and_property_values(&registry, "minecraft:stone", &vec![])
            .map(|s| s.id()),
        Some(0)
    );
}

#[test]
fn untyped_lookup_depends_on_the_order_of_the_pairs() {
    let registry = registry();
    let in_order =
        vec![pair("facing", "north"), pair("type", "single"), pair("waterlogged", "false")];
    let swapped =
        vec![pair("type", "single"), pair("facing", "north"), pair("waterlogged", "false")];
    assert_eq!(
        BlockState::from_namespaced_id_and_property_values(&registry, "minecraft:chest", &in_order)
            .map(|s| s.id()),
        Some(2)
    );
    assert_eq!(
        BlockState::from_namespaced_id_and_property_values(&registry, "minecraft:chest", &swapped),
        None
    );
}

#[test]
fn raw_round_trip_finds_every_state() {
    let registry = registry();
    for id in 0..29u16 {
        let state = BlockState::from_id(&registry, id).unwrap();
        let raw = state.raw(&registry).properties.clone();
        assert_eq!(BlockState::from_raw(&registry, &raw), Some(state));
        assert_eq!(registry.id_for_state(&raw), Some(id));
    }
}

#[test]
fn from_raw_rejects_unknown_properties() {
    let registry = registry();
    let unknown = RawBlockStateProperties { kind: CHEST, values: vec![Some(0), Some(9), Some(0)] };
    assert_eq!(BlockState::from_raw(&registry, &unknown), None);
    let other_kind = RawBlockStateProperties { kind: STONE, values: vec![Some(0), Some(0), Some(0)] };
    assert_eq!(BlockState::from_raw(&registry, &other_kind), None);
    let shorter = RawBlockStateProperties { kind: STONE, values: vec![None, None] };
    assert_eq!(BlockState::from_raw(&registry, &shorter), None);
}

#[test]
fn view_round_trip_leaves_every_state_unchanged() {
    let registry = registry();
    for id in 0..29u16 {
        let state = BlockState::from_id(&registry, id).unwrap();
        if let Some(view) = state.data_as::<Property<FACING>>(&registry) {
            let mut copy = state;
            assert!(copy.set_data(&registry, view));
            assert_eq!(copy, state);
        }
        if let Some(view) = state.data_as::<Property<CHEST_TYPE>>(&registry) {
            let mut copy = state;
            assert!(copy.set_data(&registry, view));
            assert_eq!(copy, state);
        }
        if let Some(view) = state.data_as::<Property<WATERLOGGED>>(&registry) {
            let mut copy = state;
            assert!(copy.set_data(&registry, view));
            assert_eq!(copy, state);
        }
    }
}

#[test]
fn data_as_decodes_the_slot() {
    let registry = registry();
    let state = BlockState::from_id(&registry, 9).unwrap();
    assert_eq!(state.data_as::<Property<FACING>>(&registry).map(|p| p.value), Some(1));
    assert_eq!(state.data_as::<Property<CHEST_TYPE>>(&registry).map(|p| p.value), Some(1));
    assert_eq!(state.data_as::<Property<WATERLOGGED>>(&registry).map(|p| p.value), Some(0));
    assert_eq!(state.data_as::<Property<CHEST_TYPE>>(&registry), Some(Property::new(1)));
    assert_ne!(state.data_as::<Property<CHEST_TYPE>>(&registry), Some(Property::new(2)));
    assert!(state.data_as::<Property<3>>(&registry).is_none());
    let lever = BlockState::new(&registry, LEVER);
    assert_eq!(lever.data_as::<Property<FACING>>(&registry).map(|p| p.value), Some(2));
    assert!(lever.data_as::<Property<CHEST_TYPE>>(&registry).is_none());
}

#[test]
fn set_data_moves_to_the_state_with_the_new_value() {
    let registry = registry();
    let mut state = BlockState::new(&registry, CHEST);
    assert!(state.set_data(&registry, Property::<CHEST_TYPE>::new(2)));
    assert_eq!(state.id(), 6);
    assert_eq!(state.kind(&registry), CHEST);
    assert_eq!(
        state.property_values(&registry),
        &vec![pair("facing", "north"), pair("type", "right"), pair("waterlogged", "false")]
    );
    assert!(state.set_data(&registry, Property::<FACING>::new(3)));
    assert_eq!(state.id(), 24);
    assert!(state.set_data(&registry, Property::<WATERLOGGED>::new(0)));
    assert_eq!(state.id(), 23);
}

#[test]
fn set_data_without_a_matching_state_changes_nothing() {
    let registry = registry();
    let mut chest = BlockState::new(&registry, CHEST);
    assert!(!chest.set_data(&registry, Property::<CHEST_TYPE>::new(7)));
    assert_eq!(chest.id(), 2);
    let mut stone = BlockState::new(&registry, STONE);
    assert!(!stone.set_data(&registry, Property::<CHEST_TYPE>::new(0)));
    assert_eq!(stone.id(), 0);
    let mut lever = BlockState::new(&registry, LEVER);
    assert!(!lever.set_data(&registry, Property::<WATERLOGGED>::new(1)));
    assert_eq!(lever.id(), 27);
    // a slot that the raw properties do not have at all
    let mut other = BlockState::new(&registry, CHEST);
    assert!(other.set_data(&registry, Property::<9>::new(1)));
    assert_eq!(other.id(), 2);
}

#[test]
fn states_are_equal_when_their_ids_are() {
    let registry = registry();
    let a = BlockState::from_id(&registry, 5).unwrap();
    let b = BlockState::from_id(&registry, 5).unwrap();
    let c = BlockState::from_id(&registry, 6).unwrap();
    assert_eq!(a, b);
    assert_ne!(a, c);
    assert_eq!(a.id() == c.id(), a == c);
    assert_eq!(a.kind(&registry), b.kind(&registry));
    assert_eq!(a.namespaced_id(&registry), b.namespaced_id(&registry));
    assert_eq!(a.property_values(&registry), b.property_values(&registry));
}

#[test]
fn states_are_ordered_and_hashed_by_id() {
    let registry = registry();
    let a = BlockState::from_id(&registry, 5).unwrap();
    let c = BlockState::from_id(&registry, 6).unwrap();
    assert!(a < c);
    assert_eq!(a.max(c), c);
    let mut seen = std::collections::HashSet::new();
    assert!(seen.insert(a));
    assert!(!seen.insert(BlockState::from_id(&registry, 5).unwrap()));
    assert!(seen.insert(c));
}

#[test]
fn a_handle_read_back_may_be_invalid() {
    let registry = registry();
    let stale = BlockState::from_id_unchecked(4000);
    assert_eq!(stale.id(), 4000);
    assert!(!stale.is_valid(&registry));
    let fresh = BlockState::from_id_unchecked(28);
    assert!(fresh.is_valid(&registry));
    assert_eq!(Some(fresh), BlockState::from_id(&registry, 28));
}

#[test]
fn default_state_has_id_zero() {
    assert_eq!(BlockState::default().id(), 0);
    assert!(BlockState::default().is_valid(&registry()));
}

#[test]
fn chest_single_resolves_alike_by_strings_and_by_set_data() {
    let registry = registry();
    let by_strings = BlockState::from_namespaced_id_and_property_values(
        &registry,
        "minecraft:chest",
        &vec![pair("facing", "north"), pair("type", "single"), pair("waterlogged", "false")],
    )
    .unwrap();
    let mut by_data = BlockState::new(&registry, CHEST);
    by_data.set_data(&registry, Property::<CHEST_TYPE>::new(0));
    assert_eq!(by_strings.id(), by_data.id());
    assert_eq!(by_strings, by_data);

    let left = BlockState::from_namespaced_id_and_property_values(
        &registry,
        "minecraft:chest",
        &vec![pair("facing", "north"), pair("type", "left"), pair("waterlogged", "false")],
    )
    .unwrap();
    let mut moved = BlockState::new(&registry, CHEST);
    moved.set_data(&registry, Property::<CHEST_TYPE>::new(1));
    assert_eq!(left.id(), 4);
    assert_eq!(left, moved);
}

#[test]
fn stone_has_no_chest_type() {
    let registry = registry();
    let stone = BlockState::new(&registry, STONE);
    assert!(stone.data_as::<Property<CHEST_TYPE>>(&registry).is_none());
    assert!(stone.data_as::<Property<FACING>>(&registry).is_none());
}

#[test]
fn debug_fields_list_kind_then_properties() {
    let registry = registry();
    let state = BlockState::from_id(&registry, 28).unwrap();
    assert_eq!(
        state.debug_fields(&registry),
        vec![pair("kind", "minecraft:lever"), pair("facing", "east")]
    );
    let stone = BlockState::new(&registry, STONE);
    assert_eq!(stone.debug_fields(&registry), vec![pair("kind", "minecraft:stone")]);
}

#[test]
fn valid_properties_know_their_domains() {
    let registry = registry();
    let valid = BlockState::new(&registry, CHEST).get_valid_properties(&registry);
    assert!(valid.allows(CHEST_TYPE, 2));
    assert!(!valid.allows(CHEST_TYPE, 3));
    assert!(valid.allows(WATERLOGGED, 0));
    assert!(!valid.allows(3, 0));
    let stone = BlockState::new(&registry, STONE).get_valid_properties(&registry);
    assert!(!stone.allows(FACING, 0));
}

#[test]
fn property_takes_only_allowed_values() {
    let registry = registry();
    let chest = BlockState::new(&registry, CHEST);
    let valid = chest.get_valid_properties(&registry);
    let mut view = chest.data_as::<Property<CHEST_TYPE>>(&registry).unwrap();
    assert_eq!(view.value, 0);
    assert!(!view.set_value(3, valid));
    assert_eq!(view.value, 0);
    assert!(view.set_value(2, valid));
    assert_eq!(view.value, 2);
}

#[test]
fn kind_properties_are_found_by_kind() {
    let registry = registry();
    assert_eq!(registry.kind_properties(LEVER).unwrap().namespaced_id, "minecraft:lever");
    assert_eq!(registry.kind_properties(STONE).unwrap().kind, STONE);
    assert!(registry.kind_properties(BlockKind { id: 2 }).is_none());
}

#[test]
fn id_for_untyped_repr_finds_the_id() {
    let registry = registry();
    assert_eq!(
        registry.id_for_untyped_repr("minecraft:lever", &vec![pair("facing", "north")]),
        Some(25)
    );
    assert_eq!(registry.id_for_untyped_repr("minecraft:lever", &vec![pair("facing", "")]), None);
}

#[test]
fn id_mismatch_is_rejected() {
    let mut states = state_table();
    states[3].id = 4;
    assert_eq!(fault(states, kind_table()), RegistryError::IdMismatch);
    assert_eq!(fault(vec![stone_row(1)], kind_table()), RegistryError::IdMismatch);
}

#[test]
fn more_states_than_ids_are_rejected() {
    let mut states = vec![];
    for n in 0..65537u32 {
        let mut row = lever_row(0, 0, n == 0);
        row.id = n as u16;
        row.properties.values = vec![Some((n % 65536) as u16), Some((n / 65536) as u16), None];
        row.untyped_properties = vec![pair("n", &n.to_string())];
        states.push(row);
    }
    assert_eq!(fault(states.clone(), kind_table()), RegistryError::IdMismatch);
    states.pop();
    let registry = BlockRegistry::new(states, kind_table()).unwrap();
    assert_eq!(registry.state_count(), 65536);
    assert_eq!(BlockState::from_id(&registry, u16::MAX).map(|s| s.id()), Some(u16::MAX));
}

#[test]
fn kind_mismatch_is_rejected() {
    let mut states = state_table();
    states[5].properties.kind = STONE;
    assert_eq!(fault(states, kind_table()), RegistryError::KindMismatch);
}

#[test]
fn duplicate_kind_is_rejected() {
    let mut kinds = kind_table();
    kinds.push(RawBlockProperties {
        kind: STONE,
        namespaced_id: "minecraft:granite".to_string(),
        simplified_kind: SimplifiedBlockKind { id: 3 },
        valid_properties: ValidProperties { domains: vec![] },
    });
    assert_eq!(fault(state_table(), kinds), RegistryError::DuplicateKind);
}

#[test]
fn unknown_kind_is_rejected() {
    let mut kinds = kind_table();
    kinds.pop();
    assert_eq!(fault(state_table(), kinds), RegistryError::UnknownKind);
    assert_eq!(fault(state_table(), vec![]), RegistryError::UnknownKind);
}

#[test]
fn duplicate_properties_are_rejected() {
    let mut states = state_table();
    states[7].properties.values = vec![Some(0), Some(0), Some(0)];
    assert_eq!(fault(states, kind_table()), RegistryError::DuplicateProperties);
}

#[test]
fn duplicate_untyped_repr_is_rejected() {
    let mut states = state_table();
    states[26].untyped_properties = vec![pair("facing", "north")];
    assert_eq!(fault(states, kind_table()), RegistryError::DuplicateUntypedRepr);
}

#[test]
fn same_strings_under_two_kinds_are_accepted() {
    let mut kinds = kind_table();
    kinds[2].namespaced_id = "minecraft:chest".to_string();
    let registry = BlockRegistry::new(state_table(), kinds).unwrap();
    assert_eq!(
        registry.id_for_untyped_repr("minecraft:chest", &vec![pair("facing", "west")]),
        Some(27)
    );
}

#[test]
fn duplicate_default_is_rejected() {
    let mut states = state_table();
    states[25].default = true;
    assert_eq!(fault(states, kind_table()), RegistryError::DuplicateDefault);
}

#[test]
fn missing_default_is_rejected() {
    let mut states = state_table();
    states[27].default = false;
    assert_eq!(fault(states, kind_table()), RegistryError::MissingDefault);
}

#[test]
fn faults_come_in_a_fixed_order() {
    // an id mismatch, a missing kind row and a missing default at once
    let mut states = state_table();
    states[27].default = false;
    let mut kinds = kind_table();
    kinds.pop();
    assert_eq!(fault(states.clone(), kinds.clone()), RegistryError::UnknownKind);
    states[0].id = 9;
    assert_eq!(fault(states, kinds), RegistryError::IdMismatch);
}

#[test]
fn a_kind_without_states_needs_no_default() {
    let mut kinds = kind_table();
    kinds.push(RawBlockProperties {
        kind: BlockKind { id: 300 },
        namespaced_id: "minecraft:air".to_string(),
        simplified_kind: SimplifiedBlockKind { id: 0 },
        valid_properties: ValidProperties { domains: vec![] },
    });
    let registry = BlockRegistry::new(state_table(), kinds).unwrap();
    assert_eq!(registry.default_id(BlockKind { id: 300 }), None);
    assert_eq!(
        registry.kind_properties(BlockKind { id: 300 }).unwrap().namespaced_id,
        "minecraft:air"
    );
}
