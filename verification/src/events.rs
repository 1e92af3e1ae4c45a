//! Block-change events: which blocks a change touched.
//!
//! An event names either a single block or a whole chunk section, sixteen
//! blocks along each axis. Which state a block changed to is read from the
//! world through the registry; the event carries positions only.

use std::convert::TryFrom;
use vstd::prelude::*;
use vstd::std_specs::convert::FromSpecImpl;
use vstd::std_specs::convert::TryFromSpecImpl;

verus! {

/// The number of blocks along each axis of a chunk section.
pub const SECTION_HEIGHT: usize = 16;

/// The number of blocks in a chunk section.
pub const SECTION_VOLUME: usize = 4096;

/// The position of a chunk: a column sixteen blocks wide along x and z.
#[derive(Clone, Copy, Debug, PartialEq, Eq, Structural, Hash)]
pub struct ChunkPosition {
    pub x: i32,
    pub z: i32,
}

impl ChunkPosition {
    /// The chunk at the given chunk coordinates.
    pub fn new(x: i32, z: i32) -> (r: Self)
        ensures
            r.x == x,
            r.z == z,
    {
        ChunkPosition { x, z }
    }
}

/// The position of a block, valid or not.
#[derive(Clone, Copy, Debug, PartialEq, Eq, Structural, Hash)]
pub struct BlockPosition {
    pub x: i32,
    pub y: i32,
    pub z: i32,
}

impl BlockPosition {
    /// The block at the given coordinates.
    pub fn new(x: i32, y: i32, z: i32) -> (r: Self)
        ensures
            r.x == x,
            r.y == y,
            r.z == z,
    {
        BlockPosition { x, y, z }
    }

    /// Whether the position is within the limits of a world: x and z from
    /// -33554432 to 33554431, y from -2048 to 2047.
    pub open spec fn spec_valid(self) -> bool {
        &&& -33554432 <= self.x <= 33554431
        &&& -2048 <= self.y <= 2047
        &&& -33554432 <= self.z <= 33554431
    }

    /// Whether the position is within the limits of a world.
    #[verifier::when_used_as_spec(spec_valid)]
    pub fn valid(self) -> (r: bool)
        ensures
            r == self.spec_valid(),
    {
        -33554432 <= self.x && self.x <= 33554431 && -2048 <= self.y && self.y <= 2047 && -33554432
            <= self.z && self.z <= 33554431
    }

    /// The chunk that holds the position.
    pub open spec fn spec_chunk(self) -> ChunkPosition {
        ChunkPosition { x: (self.x as int / 16) as i32, z: (self.z as int / 16) as i32 }
    }

    /// The chunk that holds the position.
    #[verifier::when_used_as_spec(spec_chunk)]
    pub fn chunk(self) -> (r: ChunkPosition)
        ensures
            r == self.spec_chunk(),
    {
        ChunkPosition { x: floor_sixteenth(self.x), z: floor_sixteenth(self.z) }
    }
}

/// `v` divided by sixteen, rounded down.
fn floor_sixteenth(v: i32) -> (r: i32)
    ensures
        r == v as int / 16,
{
    if v >= 0 {
        v / 16
    } else {
        let below: i32 = -(v + 1);
        -(below / 16) - 1
    }
}

/// A horizontal direction.
#[derive(Clone, Copy, Debug, PartialEq, Eq, Structural, Hash)]
pub enum BlockFace {
    /// Towards greater x.
    East,
    /// Towards lesser x.
    West,
    /// Towards lesser z.
    North,
    /// Towards greater z.
    South,
}

/// The step along x and along z that leads in the direction `face`.
pub open spec fn face_step(face: BlockFace) -> (int, int) {
    match face {
        BlockFace::East => (1, 0),
        BlockFace::West => (-1, 0),
        BlockFace::North => (0, -1),
        BlockFace::South => (0, 1),
    }
}

/// The position next to `position` in the direction `face`.
pub open spec fn neighbour(position: BlockPosition, face: BlockFace) -> BlockPosition {
    BlockPosition {
        x: (position.x + face_step(face).0) as i32,
        y: position.y,
        z: (position.z + face_step(face).1) as i32,
    }
}

/// Why a block position is not valid.
#[derive(Clone, Copy, Debug, PartialEq, Eq, Structural)]
pub enum BlockPositionValidationError {
    /// A coordinate is outside the limits of a world.
    OutOfRange(BlockPosition),
}

/// A block position that is known to be valid.
#[derive(Clone, Copy, Debug, PartialEq, Eq, Structural, Hash)]
pub struct ValidBlockPosition {
    x: i32,
    y: i32,
    z: i32,
}

impl ValidBlockPosition {
    /// The position, as a block position.
    pub closed spec fn position(self) -> BlockPosition {
        BlockPosition { x: self.x, y: self.y, z: self.z }
    }

    #[verifier::type_invariant]
    spec fn within_limits(self) -> bool {
        self.position().spec_valid()
    }

    /// The valid position at `position`, or the reason why there is none.
    pub fn validate(position: BlockPosition) -> (r: Result<Self, BlockPositionValidationError>)
        ensures
            r is Ok <==> position.spec_valid(),
            r matches Ok(valid) ==> valid.position() == position,
            r matches Err(fault) ==> fault == BlockPositionValidationError::OutOfRange(position),
    {
        if position.valid() {
            Ok(ValidBlockPosition { x: position.x, y: position.y, z: position.z })
        } else {
            Err(BlockPositionValidationError::OutOfRange(position))
        }
    }

    /// The position, as a block position.
    pub fn block(self) -> (r: BlockPosition)
        ensures
            r == self.position(),
            r.spec_valid(),
    {
        proof {
            use_type_invariant(self);
        }
        BlockPosition { x: self.x, y: self.y, z: self.z }
    }

    pub fn x(self) -> (r: i32)
        ensures
            r == self.position().x,
    {
        self.x
    }

    pub fn y(self) -> (r: i32)
        ensures
            r == self.position().y,
    {
        self.y
    }

    pub fn z(self) -> (r: i32)
        ensures
            r == self.position().z,
    {
        self.z
    }

    /// The chunk that holds the position.
    pub fn chunk(self) -> (r: ChunkPosition)
        ensures
            r == self.position().spec_chunk(),
    {
        self.block().chunk()
    }

    /// The position next to this one in the direction `face`. It may lie
    /// just outside the world.
    pub fn adjacent(self, face: BlockFace) -> (r: BlockPosition)
        ensures
            r == neighbour(self.position(), face),
            r.x == self.position().x + face_step(face).0,
            r.z == self.position().z + face_step(face).1,
    {
        proof {
            use_type_invariant(self);
        }
        match face {
            BlockFace::East => BlockPosition { x: self.x + 1, y: self.y, z: self.z },
            BlockFace::West => BlockPosition { x: self.x - 1, y: self.y, z: self.z },
            BlockFace::North => BlockPosition { x: self.x, y: self.y, z: self.z - 1 },
            BlockFace::South => BlockPosition { x: self.x, y: self.y, z: self.z + 1 },
        }
    }

    /// The four positions that a change at this one may affect: those to
    /// the east, west, north and south, in this order.
    pub fn horizontal_neighbours(self) -> (r: Vec<BlockPosition>)
        ensures
            r@ == seq![
                neighbour(self.position(), BlockFace::East),
                neighbour(self.position(), BlockFace::West),
                neighbour(self.position(), BlockFace::North),
                neighbour(self.position(), BlockFace::South),
            ],
    {
        let mut out: Vec<BlockPosition> = Vec::new();
        out.push(self.adjacent(BlockFace::East));
        out.push(self.adjacent(BlockFace::West));
        out.push(self.adjacent(BlockFace::North));
        out.push(self.adjacent(BlockFace::South));
        out
    }
}

impl TryFrom<BlockPosition> for ValidBlockPosition {
    type Error = BlockPositionValidationError;

    fn try_from(value: BlockPosition) -> (r: Result<Self, Self::Error>)
        ensures
            r is Ok <==> value.spec_valid(),
            r matches Ok(valid) ==> valid.position() == value,
            r matches Err(fault) ==> fault == BlockPositionValidationError::OutOfRange(value),
    {
        Self::validate(value)
    }
}

impl TryFromSpecImpl<BlockPosition> for ValidBlockPosition {
    open spec fn obeys_try_from_spec() -> bool {
        true
    }

    closed spec fn try_from_spec(v: BlockPosition) -> Result<Self, Self::Error> {
        if v.spec_valid() {
            Ok(ValidBlockPosition { x: v.x, y: v.y, z: v.z })
        } else {
            Err(BlockPositionValidationError::OutOfRange(v))
        }
    }
}

impl From<ValidBlockPosition> for BlockPosition {
    fn from(value: ValidBlockPosition) -> (r: Self) {
        value.block()
    }
}

impl FromSpecImpl<ValidBlockPosition> for BlockPosition {
    open spec fn obeys_from_spec() -> bool {
        true
    }

    open spec fn from_spec(v: ValidBlockPosition) -> Self {
        v.position()
    }
}

/// The `n`-th block of a chunk section, counting along z first, then y, then
/// x.
pub open spec fn section_block(chunk: ChunkPosition, section: u32, n: int) -> BlockPosition {
    BlockPosition {
        x: (n / 256 + chunk.x * 16) as i32,
        y: ((n / 16) % 16 + section * 16) as i32,
        z: (n % 16 + chunk.z * 16) as i32,
    }
}

/// Whether every block of the chunk section is a valid position.
pub open spec fn section_in_world(chunk: ChunkPosition, section: u32) -> bool {
    &&& -2097152 <= chunk.x <= 2097151
    &&& -2097152 <= chunk.z <= 2097151
    &&& section <= 127
}

/// No two blocks of a chunk section are at the same position.
pub proof fn law_section_blocks_distinct(chunk: ChunkPosition, section: u32, m: int, n: int)
    requires
        section_in_world(chunk, section),
        0 <= m < 4096,
        0 <= n < 4096,
        section_block(chunk, section, m) == section_block(chunk, section, n),
    ensures
        m == n,
{
    let a = section_block(chunk, section, m);
    let b = section_block(chunk, section, n);
    assert(a.x == b.x && a.y == b.y && a.z == b.z);
    assert(m / 256 == n / 256);
    assert((m / 16) % 16 == (n / 16) % 16);
    assert(m % 16 == n % 16);
}

/// Every position within a chunk section is one of the section's blocks.
pub proof fn law_section_blocks_cover(chunk: ChunkPosition, section: u32, position: BlockPosition)
    requires
        section_in_world(chunk, section),
        chunk.x * 16 <= position.x < chunk.x * 16 + 16,
        section * 16 <= position.y < section * 16 + 16,
        chunk.z * 16 <= position.z < chunk.z * 16 + 16,
    ensures
        exists|n: int| 0 <= n < 4096 && #[trigger] section_block(chunk, section, n) == position,
{
    let dx = position.x - chunk.x * 16;
    let dy = position.y - section * 16;
    let dz = position.z - chunk.z * 16;
    let n = dx * 256 + dy * 16 + dz;
    assert(n / 256 == dx);
    assert((n / 16) % 16 == dy);
    assert(n % 16 == dz);
    assert(section_block(chunk, section, n) == position);
}

/// Whether every block of the chunk section is a valid position.
pub fn section_is_in_world(chunk: ChunkPosition, section: u32) -> (r: bool)
    ensures
        r == section_in_world(chunk, section),
{
    -2097152 <= chunk.x && chunk.x <= 2097151 && -2097152 <= chunk.z && chunk.z <= 2097151
        && section <= 127
}

/// The blocks of a chunk section: its 4096 positions, z running fastest and
/// x slowest.
pub fn iter_section_blocks(chunk: ChunkPosition, section: u32) -> (r: Vec<ValidBlockPosition>)
    requires
        section_in_world(chunk, section),
    ensures
        r.len() == SECTION_VOLUME,
        forall|n: int|
            0 <= n < SECTION_VOLUME ==> (#[trigger] r[n]).position() == section_block(
                chunk,
                section,
                n,
            ),
{
    let mut blocks: Vec<ValidBlockPosition> = Vec::new();
    let mut n: usize = 0;
    while n < SECTION_VOLUME
        invariant
            n <= SECTION_VOLUME,
            section_in_world(chunk, section),
            blocks.len() == n,
            forall|m: int|
                0 <= m < n ==> (#[trigger] blocks[m]).position() == section_block(chunk, section, m),
        decreases SECTION_VOLUME - n,
    {
        let dx: i32 = (n / 256) as i32;
        let dy: i32 = ((n / 16) % 16) as i32;
        let dz: i32 = (n % 16) as i32;
        let x: i32 = dx + chunk.x * 16;
        let y: i32 = dy + section as i32 * 16;
        let z: i32 = dz + chunk.z * 16;
        match ValidBlockPosition::validate(BlockPosition::new(x, y, z)) {
            Ok(block) => {
                blocks.push(block);
            },
            Err(_) => {
                assert(false);
            },
        }
        n += 1;
    }
    blocks
}

/// The world that an event happened in, named by its entity's number.
#[derive(Clone, Copy, Debug, PartialEq, Eq, Structural, Hash)]
pub struct EntityWorld(pub u64);

/// The dimension that an event happened in, named by its namespaced id.
#[derive(Clone, Debug)]
pub struct EntityDimension(pub String);

/// What a block-change event changed.
#[derive(Clone, Copy, Debug)]
pub enum BlockChanges {
    /// A single block change.
    Single { pos: ValidBlockPosition },
    /// A whole chunk section was filled with the same block.
    FillChunkSection { chunk: ChunkPosition, section: u32 },
}

/// Event triggered when one or more blocks are changed.
#[derive(Clone, Debug)]
pub struct BlockChangeEvent {
    changes: BlockChanges,
    world: EntityWorld,
    dimension: EntityDimension,
}

/// The section that a height falls in: the height, taken as an unsigned
/// number of the machine's word size, divided by the section height.
pub open spec fn section_of_height(y: i32) -> int {
    if y >= 0 {
        y as int / 16
    } else {
        (usize::MAX + 1 + y) / 16
    }
}

impl BlockChangeEvent {
    /// What the event changed.
    pub closed spec fn changes(&self) -> BlockChanges {
        self.changes
    }

    /// The world that the event happened in.
    pub closed spec fn spec_world(&self) -> EntityWorld {
        self.world
    }

    /// The dimension that the event happened in.
    pub closed spec fn spec_dimension(&self) -> EntityDimension {
        self.dimension
    }

    /// The number of blocks that the event changed.
    pub open spec fn spec_count(&self) -> int {
        match self.changes() {
            BlockChanges::Single { .. } => 1,
            BlockChanges::FillChunkSection { .. } => 4096,
        }
    }

    /// The position of the `n`-th block that the event changed.
    pub open spec fn changed_block(&self, n: int) -> BlockPosition {
        match self.changes() {
            BlockChanges::Single { pos } => pos.position(),
            BlockChanges::FillChunkSection { chunk, section } => section_block(chunk, section, n),
        }
    }

    /// Whether every block that the event names is a valid position.
    pub open spec fn in_world(&self) -> bool {
        match self.changes() {
            BlockChanges::Single { .. } => true,
            BlockChanges::FillChunkSection { chunk, section } => section_in_world(chunk, section),
        }
    }

    /// The one chunk section that the event touched: the chunk, the
    /// section's number and the number of blocks changed in it.
    pub open spec fn affected_section(&self) -> (ChunkPosition, int, int) {
        match self.changes() {
            BlockChanges::Single { pos } => (
                pos.position().spec_chunk(),
                section_of_height(pos.position().y),
                1,
            ),
            BlockChanges::FillChunkSection { chunk, section } => (chunk, section as int, 4096),
        }
    }

    /// Creates an event affecting a single block.
    pub fn single(
        pos: ValidBlockPosition,
        world: EntityWorld,
        dimension: EntityDimension,
    ) -> (r: Self)
        ensures
            r.changes() == (BlockChanges::Single { pos }),
            r.spec_world() == world,
            r.spec_dimension() == dimension,
    {
        BlockChangeEvent { changes: BlockChanges::Single { pos }, world, dimension }
    }

    /// Creates an event corresponding to a block update that fills an entire
    /// chunk section with the same block.
    pub fn fill_chunk_section(
        chunk: ChunkPosition,
        section: u32,
        world: EntityWorld,
        dimension: EntityDimension,
    ) -> (r: Self)
        ensures
            r.changes() == (BlockChanges::FillChunkSection { chunk, section }),
            r.spec_world() == world,
            r.spec_dimension() == dimension,
    {
        BlockChangeEvent { changes: BlockChanges::FillChunkSection { chunk, section }, world, dimension }
    }

    /// Determines the number of blocks that were changed in this block
    /// change event.
    pub fn count(&self) -> (r: usize)
        ensures
            r == self.spec_count(),
    {
        match &self.changes {
            BlockChanges::Single { .. } => 1,
            BlockChanges::FillChunkSection { .. } => SECTION_VOLUME,
        }
    }

    /// Whether every block that the event names is a valid position, so that
    /// the blocks can be listed.
    pub fn is_in_world(&self) -> (r: bool)
        ensures
            r == self.in_world(),
    {
        match &self.changes {
            BlockChanges::Single { .. } => true,
            BlockChanges::FillChunkSection { chunk, section } => section_is_in_world(
                *chunk,
                *section,
            ),
        }
    }

    /// The block positions affected by this block change, in order.
    pub fn iter_changed_blocks(&self) -> (r: Vec<ValidBlockPosition>)
        requires
            self.in_world(),
        ensures
            r.len() == self.spec_count(),
            forall|n: int|
                0 <= n < r.len() ==> (#[trigger] r[n]).position() == self.changed_block(n),
    {
        match &self.changes {
            BlockChanges::Single { pos } => {
                let mut blocks: Vec<ValidBlockPosition> = Vec::new();
                blocks.push(*pos);
                blocks
            },
            BlockChanges::FillChunkSection { chunk, section } => iter_section_blocks(
                *chunk,
                *section,
            ),
        }
    }

    /// The chunk sections affected by this block change: one entry of
    /// chunk, section number and number of blocks changed within the
    /// section.
    pub fn iter_affected_chunk_sections(&self) -> (r: Vec<(ChunkPosition, usize, usize)>)
        ensures
            r.len() == 1,
            r[0].0 == self.affected_section().0,
            r[0].1 == self.affected_section().1,
            r[0].2 == self.affected_section().2,
    {
        let mut sections: Vec<(ChunkPosition, usize, usize)> = Vec::new();
        match &self.changes {
            BlockChanges::Single { pos } => {
                let y = pos.y();
                proof {
                    use_type_invariant(*pos);
                }
                let wrapped: usize = if y >= 0 {
                    y as usize
                } else {
                    usize::MAX - ((-(y + 1)) as usize)
                };
                sections.push((pos.chunk(), wrapped / SECTION_HEIGHT, 1));
            },
            BlockChanges::FillChunkSection { chunk, section } => {
                sections.push((*chunk, *section as usize, SECTION_VOLUME));
            },
        }
        sections
    }

    /// The dimension that the event happened in.
    pub fn dimension(&self) -> (r: &EntityDimension)
        ensures
            *r == self.spec_dimension(),
    {
        &self.dimension
    }

    /// The world that the event happened in.
    pub fn world(&self) -> (r: EntityWorld)
        ensures
            r == self.spec_world(),
    {
        self.world
    }
}

} // verus!
