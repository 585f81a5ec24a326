use vstd::prelude::*;

use crate::copper_golem::{
    BlockEntityBase, BlockEntityCreation, BlockEntityType, CopperGolemStatueBlockEntity,
};
use crate::copper_golem_statue_block::{
    CopperGolemStatueBlock, placed_state, statue_box, statue_pathfindable, statue_signal,
    waxed_use_outcome,
};
use crate::item::{BlockPlaceContext, ItemStack};
use crate::pose::{Pose, next_pose};
use crate::types::{
    BlockPos, BlockRef, Direction, HeldItem, OutputSignalUpdate, PathComputationType, StatueState,
    InteractionResult, UseItemOutcome, VoxelShape, WeatherState, is_copper_golem_statue, is_horizontal,
    opposite_direction,
    unaffected_statue,
};

verus! {

/// A weathering (unwaxed) copper golem statue that is placed in the standing
/// pose and drops the plain copper golem statue item.
#[derive(Clone, Copy, Debug, PartialEq, Eq, Structural)]
pub struct WeatheringCopperGolemStatueBlock {
    pub block: BlockRef,
    pub copper_golem_statue_block: CopperGolemStatueBlock,
}

impl WeatheringCopperGolemStatueBlock {
    /// The behaviour of weathering statue block `block`.
    pub fn new(block: BlockRef) -> (r: Self)
        ensures
            r.block == block,
            r.copper_golem_statue_block.block == block,
    {
        WeatheringCopperGolemStatueBlock {
            block,
            copper_golem_statue_block: CopperGolemStatueBlock::new(block),
        }
    }

    /// The state of a statue placed from `context`: standing, facing the
    /// player, and holding water when placed into a water source.
    pub fn get_state_for_placement(&self, context: &BlockPlaceContext) -> (r: Option<StatueState>)
        requires
            is_horizontal(context.horizontal_direction),
        ensures
            r == Some(
                placed_state(
                    self.block,
                    context.horizontal_direction,
                    context.water_source,
                    Pose::Standing,
                ),
            ),
            is_horizontal(r.unwrap().facing),
            r.unwrap().block == self.block,
            r.unwrap().pose == Pose::Standing,
            r.unwrap().waterlogged == context.water_source,
            opposite_direction(r.unwrap().facing) == context.horizontal_direction,
    {
        Some(
            StatueState {
                block: self.block,
                facing: context.horizontal_direction.opposite(),
                pose: Pose::Standing,
                waterlogged: context.water_source,
            },
        )
    }

    /// Removed as a waxed statue is.
    pub fn affect_neighbors_after_removal(
        &self,
        state: StatueState,
        pos: BlockPos,
        moved_by_piston: bool,
    ) -> (r: OutputSignalUpdate)
        ensures
            r == (OutputSignalUpdate { pos, block: state.block }),
    {
        self.copper_golem_statue_block.affect_neighbors_after_removal(state, pos, moved_by_piston)
    }

    /// Answers an item as a waxed statue does.
    pub fn use_item_on(&self, state: StatueState, pos: BlockPos, held: HeldItem) -> (r: UseItemOutcome)
        ensures
            r == waxed_use_outcome(state, held),
            held.in_axes_tag ==> r.result == InteractionResult::Pass && r.new_state is None,
            !held.in_axes_tag ==> r.result == InteractionResult::Success && r.new_state == Some(
                StatueState {
                    block: state.block,
                    facing: state.facing,
                    pose: next_pose(state.pose),
                    waterlogged: state.waterlogged,
                },
            ),
    {
        self.copper_golem_statue_block.use_item_on(state, pos, held)
    }

    /// The item a player picks from the statue: one plain copper golem statue
    /// item, carrying no properties.
    pub fn get_clone_item_stack(&self, block: BlockRef, state: StatueState, include_data: bool) -> (r:
        Option<ItemStack>)
        ensures
            r is Some,
            r.unwrap().item == unaffected_statue(),
            r.unwrap().count == 1,
            r.unwrap().block_state is None,
    {
        Some(
            ItemStack::new(
                BlockRef::CopperGolemStatue { weather_state: WeatherState::Unaffected, waxed: false },
            ),
        )
    }

    /// Pathed through as a waxed statue is.
    pub fn is_pathfindable(&self, state: StatueState, computation_type: PathComputationType) -> (r: bool)
        ensures
            r == statue_pathfindable(state, computation_type),
            r ==> computation_type is Water && state.waterlogged,
            computation_type is Water && state.waterlogged ==> r,
    {
        self.copper_golem_statue_block.is_pathfindable(state, computation_type)
    }

    /// Collides as a waxed statue does.
    pub fn get_collision_shape(&self, state: StatueState, pos: BlockPos) -> (r: VoxelShape)
        ensures
            r.boxes@ == seq![statue_box()],
    {
        self.copper_golem_statue_block.get_collision_shape(state, pos)
    }

    /// The block entity of a waxed statue.
    pub fn new_block_entity(&self, pos: BlockPos, state: StatueState) -> (r: BlockEntityCreation)
        ensures
            r == BlockEntityCreation::Created(
                CopperGolemStatueBlockEntity {
                    base: BlockEntityBase {
                        entity_type: BlockEntityType::CopperGolemStatue,
                        pos,
                        state,
                    },
                },
            ),
    {
        self.copper_golem_statue_block.new_block_entity(pos, state)
    }

    /// Keeps its block entity as a waxed statue does.
    pub fn should_keep_block_entity(&self, old_state: StatueState, new_state: StatueState) -> (r: bool)
        ensures
            r == is_copper_golem_statue(old_state.block),
            old_state.block is CopperGolemStatue ==> r,
            old_state.block is Other ==> !r,
    {
        self.copper_golem_statue_block.should_keep_block_entity(old_state, new_state)
    }

    /// Gives a comparator signal, as a waxed statue does.
    pub fn has_analog_output_signal(&self, state: StatueState) -> (r: bool)
        ensures
            r,
    {
        self.copper_golem_statue_block.has_analog_output_signal(state)
    }

    /// The comparator signal, as a waxed statue gives it.
    pub fn get_analog_output_signal(&self, state: StatueState, pos: BlockPos, direction: Direction) -> (r:
        i32)
        ensures
            r == statue_signal(state),
            state.pose is Standing ==> r == 1,
            state.pose is Sitting ==> r == 2,
            state.pose is Running ==> r == 3,
            state.pose is Star ==> r == 4,
    {
        self.copper_golem_statue_block.get_analog_output_signal(state, pos, direction)
    }
}

} // verus!
