use ahash::AHashSet;
use block_states::events::iter_section_blocks;
use block_states::events::section_is_in_world;
use block_states::events::BlockFace;
use block_states::events::BlockPositionValidationError;
use block_states::events::EntityDimension;
use block_states::events::EntityWorld;
use block_states::events::SECTION_HEIGHT;
use block_states::events::SECTION_VOLUME;
use block_states::BlockChangeEvent;
use block_states::BlockPosition;
use block_states::ChunkPosition;
use block_states::ValidBlockPosition;
use std::convert::TryFrom;
use std::convert::TryInto;

#[test]
fn create_single() {
    let pos = BlockPosition::new(5, 64, 9).try_into().unwrap();
    let event = BlockChangeEvent::single(
        pos,
        EntityWorld(0),
        EntityDimension("minecraft:overworld".to_string()),
    );
    assert_eq!(event.count(), 1);
    assert_eq!(event.iter_changed_blocks(), vec![pos]);
    assert_eq!(event.iter_affected_chunk_sections(), vec![(pos.chunk(), 4, 1)]);
}

#[test]
fn create_chunk_section_fill() {
    let chunk = ChunkPosition::new(10, 15);
    let section_y = 5;
    let event = BlockChangeEvent::fill_chunk_section(
        chunk,
        section_y,
        EntityWorld(0),
        EntityDimension("minecraft:overworld".to_string()),
    );
    assert_eq!(event.count(), SECTION_VOLUME);
    assert_eq!(event.iter_changed_blocks().len(), SECTION_VOLUME);
    assert_eq!(
        event.iter_affected_chunk_sections(),
        vec![(chunk, section_y as usize, SECTION_VOLUME)]
    );
}

#[test]
fn test_iter_section_blocks() {
    let blocks: Vec<ValidBlockPosition> = iter_section_blocks(ChunkPosition::new(-1, -2), 5);
    let unique_blocks: AHashSet<ValidBlockPosition> = blocks.iter().copied().collect();

    assert_eq!(blocks.len(), unique_blocks.len());
    assert_eq!(blocks.len(), SECTION_VOLUME);

    for x in -16..0 {
        for y in 80..96 {
            for z in -32..-16 {
                assert!(
                    unique_blocks.contains(&BlockPosition::new(x, y, z).try_into().unwrap()),
                    "{}, {}, {}",
                    x,
                    y,
                    z
                );
            }
        }
    }
}

#[test]
fn section_blocks_run_along_z_first() {
    let blocks = iter_section_blocks(ChunkPosition::new(2, -3), 1);
    assert_eq!(blocks[0].block(), BlockPosition::new(32, 16, -48));
    assert_eq!(blocks[1].block(), BlockPosition::new(32, 16, -47));
    assert_eq!(blocks[16].block(), BlockPosition::new(32, 17, -48));
    assert_eq!(blocks[256].block(), BlockPosition::new(33, 16, -48));
    assert_eq!(blocks[4095].block(), BlockPosition::new(47, 31, -33));
}

#[test]
fn positions_are_valid_within_the_limits() {
    assert!(BlockPosition::new(33554431, 2047, -33554432).valid());
    assert!(BlockPosition::new(0, -2048, 0).valid());
    assert!(!BlockPosition::new(33554432, 0, 0).valid());
    assert!(!BlockPosition::new(0, 2048, 0).valid());
    assert!(!BlockPosition::new(0, -2049, 0).valid());
    assert!(!BlockPosition::new(0, 0, -33554433).valid());
    let far = BlockPosition::new(0, 4000, 0);
    assert_eq!(
        ValidBlockPosition::try_from(far),
        Err(BlockPositionValidationError::OutOfRange(far))
    );
    assert_eq!(ValidBlockPosition::validate(far), Err(BlockPositionValidationError::OutOfRange(far)));
    let near = BlockPosition::new(-7, 3, 40);
    let valid = ValidBlockPosition::validate(near).unwrap();
    assert_eq!((valid.x(), valid.y(), valid.z()), (-7, 3, 40));
    assert_eq!(BlockPosition::from(valid), near);
}

#[test]
fn chunk_of_a_position_rounds_down() {
    assert_eq!(BlockPosition::new(5, 64, 9).chunk(), ChunkPosition::new(0, 0));
    assert_eq!(BlockPosition::new(16, 0, 31).chunk(), ChunkPosition::new(1, 1));
    assert_eq!(BlockPosition::new(-1, 0, -16).chunk(), ChunkPosition::new(-1, -1));
    assert_eq!(BlockPosition::new(-17, 0, -32).chunk(), ChunkPosition::new(-2, -2));
    assert_eq!(BlockPosition::new(i32::MIN, 0, i32::MAX).chunk(), ChunkPosition::new(-134217728, 134217727));
}

#[test]
fn sections_at_the_edge_of_the_world() {
    assert!(section_is_in_world(ChunkPosition::new(2097151, -2097152), 127));
    assert!(!section_is_in_world(ChunkPosition::new(2097152, 0), 0));
    assert!(!section_is_in_world(ChunkPosition::new(0, -2097153), 0));
    assert!(!section_is_in_world(ChunkPosition::new(0, 0), 128));
    let blocks = iter_section_blocks(ChunkPosition::new(2097151, -2097152), 127);
    assert_eq!(blocks[4095].block(), BlockPosition::new(33554431, 2047, -33554417));
    let event = BlockChangeEvent::fill_chunk_section(
        ChunkPosition::new(0, 0),
        128,
        EntityWorld(7),
        EntityDimension("minecraft:the_end".to_string()),
    );
    assert!(!event.is_in_world());
    assert_eq!(event.count(), 4096);
    assert_eq!(event.world(), EntityWorld(7));
    assert_eq!(event.dimension().0, "minecraft:the_end");
}

#[test]
fn a_single_change_below_zero_wraps_its_section() {
    let pos = ValidBlockPosition::validate(BlockPosition::new(-20, -1, 3)).unwrap();
    let event =
        BlockChangeEvent::single(pos, EntityWorld(0), EntityDimension("minecraft:overworld".to_string()));
    assert!(event.is_in_world());
    assert_eq!(
        event.iter_affected_chunk_sections(),
        vec![(ChunkPosition::new(-2, 0), (-1i32) as usize / SECTION_HEIGHT, 1)]
    );
    assert_eq!(event.iter_affected_chunk_sections()[0].1, usize::MAX / 16);
}

#[test]
fn neighbours_are_east_west_north_south() {
    let pos = ValidBlockPosition::validate(BlockPosition::new(10, 70, -4)).unwrap();
    assert_eq!(pos.adjacent(BlockFace::East), BlockPosition::new(11, 70, -4));
    assert_eq!(pos.adjacent(BlockFace::West), BlockPosition::new(9, 70, -4));
    assert_eq!(pos.adjacent(BlockFace::North), BlockPosition::new(10, 70, -5));
    assert_eq!(pos.adjacent(BlockFace::South), BlockPosition::new(10, 70, -3));
    assert_eq!(
        pos.horizontal_neighbours(),
        vec![
            BlockPosition::new(11, 70, -4),
            BlockPosition::new(9, 70, -4),
            BlockPosition::new(10, 70, -5),
            BlockPosition::new(10, 70, -3),
        ]
    );
    let edge = ValidBlockPosition::validate(BlockPosition::new(33554431, 0, -33554432)).unwrap();
    assert!(!edge.adjacent(BlockFace::East).valid());
    assert!(!edge.adjacent(BlockFace::North).valid());
    assert!(edge.adjacent(BlockFace::West).valid());
}
