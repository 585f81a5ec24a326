use vstd::prelude::*;

use crate::pose::{Pose, next_pose};

verus! {

/// One of the six directions a block face can point to.
#[derive(Clone, Copy, Debug, PartialEq, Eq, Structural)]
pub enum Direction {
    Down,
    Up,
    North,
    South,
    West,
    East,
}

/// The direction pointing the other way.
pub open spec fn opposite_direction(d: Direction) -> Direction {
    match d {
        Direction::Down => Direction::Up,
        Direction::Up => Direction::Down,
        Direction::North => Direction::South,
        Direction::South => Direction::North,
        Direction::West => Direction::East,
        Direction::East => Direction::West,
    }
}

/// Whether a direction lies in the horizontal plane.
pub open spec fn is_horizontal(d: Direction) -> bool {
    !(d is Down) && !(d is Up)
}

impl Direction {
    /// The direction pointing the other way.
    pub fn opposite(&self) -> (r: Direction)
        ensures
            r == opposite_direction(*self),
    {
        match self {
            Direction::Down => Direction::Up,
            Direction::Up => Direction::Down,
            Direction::North => Direction::South,
            Direction::South => Direction::North,
            Direction::West => Direction::East,
            Direction::East => Direction::West,
        }
    }
}

/// Turning around twice faces the way one started, and turning around keeps
/// a horizontal direction horizontal.
pub proof fn lemma_opposite_involution(d: Direction)
    ensures
        opposite_direction(opposite_direction(d)) == d,
        opposite_direction(d) != d,
        is_horizontal(opposite_direction(d)) == is_horizontal(d),
{
}

/// How far a copper block has oxidised.
#[derive(Clone, Copy, Debug, PartialEq, Eq, Structural)]
pub enum WeatherState {
    Unaffected,
    Exposed,
    Weathered,
    Oxidized,
}

/// A block, as far as these statues tell blocks apart: a copper golem statue
/// (one of the members of the copper golem statues tag), by its weathering and
/// whether it is waxed, or some other block by its registry id.
#[derive(Clone, Copy, Debug, PartialEq, Eq, Structural)]
pub enum BlockRef {
    CopperGolemStatue { weather_state: WeatherState, waxed: bool },
    Other { id: u32 },
}

/// Whether a block belongs to the copper golem statues tag.
pub open spec fn is_copper_golem_statue(b: BlockRef) -> bool {
    b is CopperGolemStatue
}

/// The plain statue, unaffected and unwaxed: its item is the copper golem statue item.
pub open spec fn unaffected_statue() -> BlockRef {
    BlockRef::CopperGolemStatue { weather_state: WeatherState::Unaffected, waxed: false }
}

/// The position of a block in the world.
#[derive(Clone, Copy, Debug, PartialEq, Eq, Structural)]
pub struct BlockPos {
    pub x: i32,
    pub y: i32,
    pub z: i32,
}

/// A block state of a statue: its block and the properties a statue carries,
/// the horizontal direction it faces, its pose, and whether it holds water.
#[derive(Clone, Copy, Debug, PartialEq, Eq, Structural)]
pub struct StatueState {
    pub block: BlockRef,
    pub facing: Direction,
    pub pose: Pose,
    pub waterlogged: bool,
}

/// The state a statue goes to when it is clicked: the next pose, the rest kept.
pub open spec fn posed_next(s: StatueState) -> StatueState {
    StatueState { block: s.block, facing: s.facing, pose: next_pose(s.pose), waterlogged: s.waterlogged }
}

/// What using an item on a block answers.
#[derive(Clone, Copy, Debug, PartialEq, Eq, Structural)]
pub enum InteractionResult {
    Success,
    Pass,
}

/// The kind of mob a path is computed for.
#[derive(Clone, Copy, Debug, PartialEq, Eq, Structural)]
pub enum PathComputationType {
    Land,
    Water,
    Air,
}

/// What the block logic reads of the item a player holds: whether it is in
/// the axes tag, and whether it is honeycomb.
#[derive(Clone, Copy, Debug, PartialEq, Eq, Structural)]
pub struct HeldItem {
    pub in_axes_tag: bool,
    pub is_honeycomb: bool,
}

/// The answer to using an item on a statue, and the state the statue's
/// position is set to (with every update flag), if any.
#[derive(Clone, Copy, Debug, PartialEq, Eq)]
pub struct UseItemOutcome {
    pub result: InteractionResult,
    pub new_state: Option<StatueState>,
}

/// The comparator update that removing a statue asks for: the neighbours of
/// `pos` are told that the output signal of `block` there changed.
#[derive(Clone, Copy, Debug, PartialEq, Eq, Structural)]
pub struct OutputSignalUpdate {
    pub pos: BlockPos,
    pub block: BlockRef,
}

/// An axis-aligned box inside one block, in sixteenths of a block.
#[derive(Clone, Copy, Debug, PartialEq, Eq, Structural)]
pub struct BlockLocalAabb {
    pub min_x: u8,
    pub min_y: u8,
    pub min_z: u8,
    pub max_x: u8,
    pub max_y: u8,
    pub max_z: u8,
}

/// Whether a box is non-empty and lies inside its block.
pub open spec fn box_within_block(b: BlockLocalAabb) -> bool {
    &&& b.min_x < b.max_x <= 16
    &&& b.min_y < b.max_y <= 16
    &&& b.min_z < b.max_z <= 16
}

/// A shape made of boxes.
#[derive(Debug, PartialEq, Eq)]
pub struct VoxelShape {
    pub boxes: Vec<BlockLocalAabb>,
}

} // verus!
