use vstd::prelude::*;

use crate::copper_golem::{
    BlockEntityBase, BlockEntityCreation, BlockEntityType, CopperGolemStatueBlockEntity,
};
use crate::item::{BlockItemStateProperties, BlockPlaceContext, ItemStack};
use crate::pose::{Pose, next_pose, pose_name, pose_named, pose_signal};
use crate::types::{
    BlockLocalAabb, BlockPos, BlockRef, Direction, HeldItem, InteractionResult, OutputSignalUpdate,
    PathComputationType, StatueState, UseItemOutcome, VoxelShape, WeatherState, box_within_block,
    is_copper_golem_statue, is_horizontal, opposite_direction, posed_next,
};

verus! {

/// The name of the item property that holds a statue's pose.
pub open spec fn pose_key() -> Seq<char> {
    "copper_golem_pose"@
}

/// The block-state properties of a statue item that remembers pose `p`.
pub open spec fn pose_properties(p: Pose) -> Map<Seq<char>, Seq<char>> {
    Map::empty().insert(pose_key(), pose_name(p))
}

/// The state of a statue of `block` placed by a player looking towards
/// `looking`: it faces the player, holds water if placed in a water source,
/// and shows `pose`.
pub open spec fn placed_state(block: BlockRef, looking: Direction, in_water: bool, pose: Pose) -> StatueState {
    StatueState { block, facing: opposite_direction(looking), pose, waterlogged: in_water }
}

/// The box a statue occupies, in sixteenths of a block.
pub open spec fn statue_box() -> BlockLocalAabb {
    BlockLocalAabb { min_x: 3, min_y: 0, min_z: 3, max_x: 13, max_y: 14, max_z: 13 }
}

/// Nothing happens.
pub open spec fn passed() -> UseItemOutcome {
    UseItemOutcome { result: InteractionResult::Pass, new_state: None }
}

/// The statue turns to its next pose.
pub open spec fn reposed(state: StatueState) -> UseItemOutcome {
    UseItemOutcome { result: InteractionResult::Success, new_state: Some(posed_next(state)) }
}

/// Using an item on a waxed statue: an axe does nothing, anything else turns it to its next pose.
pub open spec fn waxed_use_outcome(state: StatueState, held: HeldItem) -> UseItemOutcome {
    if held.in_axes_tag {
        passed()
    } else {
        reposed(state)
    }
}

/// Using an item on a weathering statue: an axe or honeycomb does nothing,
/// anything else turns it to its next pose.
pub open spec fn weathering_use_outcome(state: StatueState, held: HeldItem) -> UseItemOutcome {
    if held.in_axes_tag || held.is_honeycomb {
        passed()
    } else {
        reposed(state)
    }
}

/// The comparator signal a statue in `state` gives.
pub open spec fn statue_signal(state: StatueState) -> int {
    pose_signal(state.pose)
}

/// Whether a mob looking for a path of kind `ty` may pass through a statue in `state`:
/// only swimming mobs, through a statue that holds water.
pub open spec fn statue_pathfindable(state: StatueState, ty: PathComputationType) -> bool {
    ty == PathComputationType::Water && state.waterlogged
}

/// A waxed copper golem statue: it keeps its weathering and cycles through
/// poses when clicked.
#[derive(Clone, Copy, Debug, PartialEq, Eq, Structural)]
pub struct CopperGolemStatueBlock {
    pub block: BlockRef,
}

impl CopperGolemStatueBlock {
    /// The behaviour of statue block `block`.
    pub fn new(block: BlockRef) -> (r: Self)
        ensures
            r.block == block,
    {
        CopperGolemStatueBlock { block }
    }

    /// The state a clicked statue is set to.
    fn update_pose(state: StatueState) -> (r: StatueState)
        ensures
            r == posed_next(state),
    {
        StatueState {
            block: state.block,
            facing: state.facing,
            pose: state.pose.get_next_pose(),
            waterlogged: state.waterlogged,
        }
    }

    /// The state of a statue placed from `context`'s item: it faces the
    /// player, holds water when placed into a water source, and shows the pose
    /// that the item's `copper_golem_pose` property names.
    pub fn get_state_for_placement(&self, context: &BlockPlaceContext) -> (r: Option<StatueState>)
        requires
            is_horizontal(context.horizontal_direction),
            context.item.block_state is Some,
            context.item.block_state.unwrap()@.contains_key(pose_key()),
        ensures
            r == Some(
                placed_state(
                    self.block,
                    context.horizontal_direction,
                    context.water_source,
                    pose_named(context.item.block_state.unwrap()@[pose_key()]),
                ),
            ),
            is_horizontal(r.unwrap().facing),
            r.unwrap().block == self.block,
            r.unwrap().pose == pose_named(context.item.block_state.unwrap()@[pose_key()]),
            r.unwrap().waterlogged == context.water_source,
            opposite_direction(r.unwrap().facing) == context.horizontal_direction,
    {
        let props = context.item.block_state.as_ref().unwrap();
        let pose_str = props.get("copper_golem_pose").unwrap();
        let pose = Pose::from_name(pose_str.as_str());
        Some(
            StatueState {
                block: self.block,
                facing: context.horizontal_direction.opposite(),
                pose,
                waterlogged: context.water_source,
            },
        )
    }

    /// Removing a statue tells the neighbours of `pos` that its comparator signal changed.
    pub fn affect_neighbors_after_removal(
        &self,
        state: StatueState,
        pos: BlockPos,
        moved_by_piston: bool,
    ) -> (r: OutputSignalUpdate)
        ensures
            r == (OutputSignalUpdate { pos, block: state.block }),
    {
        OutputSignalUpdate { pos, block: state.block }
    }

    /// Using an item on the statue: an axe does nothing; anything else turns
    /// the statue at `pos` to its next pose.
    pub fn use_item_on(&self, state: StatueState, pos: BlockPos, held: HeldItem) -> (r: UseItemOutcome)
        ensures
            r == waxed_use_outcome(state, held),
            held.in_axes_tag ==> r.result == InteractionResult::Pass && r.new_state is None,
            !held.in_axes_tag ==> r.result == InteractionResult::Success && r.new_state == Some(
                StatueState {
                    block: state.block,
                    facing: state.facing,
                    pose: next_pose(state.pose),
                    waterlogged: state.waterlogged,
                },
            ),
    {
        if held.in_axes_tag {
            return UseItemOutcome { result: InteractionResult::Pass, new_state: None };
        }
        let new_state = Self::update_pose(state);
        UseItemOutcome { result: InteractionResult::Success, new_state: Some(new_state) }
    }

    /// The item a player picks from a statue of `block` in `state`: one item
    /// of `block` that remembers the statue's pose.
    pub fn get_clone_item_stack(&self, block: BlockRef, state: StatueState, include_data: bool) -> (r:
        Option<ItemStack>)
        ensures
            r is Some,
            r.unwrap().item == block,
            r.unwrap().count == 1,
            r.unwrap().block_state is Some,
            r.unwrap().block_state.unwrap()@ == pose_properties(state.pose),
    {
        let pose = state.pose;
        let mut block_state = BlockItemStateProperties::new();
        block_state.insert("copper_golem_pose".to_owned(), pose.as_str().to_owned());
        let mut item = ItemStack::new(block);
        item.set_block_state(block_state);
        Some(item)
    }

    /// Only swimming mobs path through a statue, and only one that holds water.
    pub fn is_pathfindable(&self, state: StatueState, computation_type: PathComputationType) -> (r: bool)
        ensures
            r == statue_pathfindable(state, computation_type),
            r ==> computation_type is Water && state.waterlogged,
            computation_type is Water && state.waterlogged ==> r,
    {
        computation_type == PathComputationType::Water && state.waterlogged
    }

    /// The statue collides as one box, 10 by 14 by 10 sixteenths, centred on the block.
    pub fn get_collision_shape(&self, state: StatueState, pos: BlockPos) -> (r: VoxelShape)
        ensures
            r.boxes@ == seq![statue_box()],
            box_within_block(r.boxes@[0]),
    {
        let mut boxes: Vec<BlockLocalAabb> = Vec::new();
        boxes.push(BlockLocalAabb { min_x: 3, min_y: 0, min_z: 3, max_x: 13, max_y: 14, max_z: 13 });
        VoxelShape { boxes }
    }

    /// A statue's block entity.
    pub fn new_block_entity(&self, pos: BlockPos, state: StatueState) -> (r: BlockEntityCreation)
        ensures
            r == BlockEntityCreation::Created(
                CopperGolemStatueBlockEntity {
                    base: BlockEntityBase {
                        entity_type: BlockEntityType::CopperGolemStatue,
                        pos,
                        state,
                    },
                },
            ),
    {
        BlockEntityCreation::Created(CopperGolemStatueBlockEntity::new(pos, state))
    }

    /// The block entity stays when the replaced state's block is a copper golem statue.
    pub fn should_keep_block_entity(&self, old_state: StatueState, new_state: StatueState) -> (r: bool)
        ensures
            r == is_copper_golem_statue(old_state.block),
            old_state.block is CopperGolemStatue ==> r,
            old_state.block is Other ==> !r,
    {
        match old_state.block {
            BlockRef::CopperGolemStatue { .. } => true,
            BlockRef::Other { .. } => false,
        }
    }

    /// Statues give a comparator signal.
    pub fn has_analog_output_signal(&self, state: StatueState) -> (r: bool)
        ensures
            r,
    {
        true
    }

    /// The comparator signal: 1 standing, 2 sitting, 3 running, 4 star.
    pub fn get_analog_output_signal(&self, state: StatueState, pos: BlockPos, direction: Direction) -> (r:
        i32)
        ensures
            r == statue_signal(state),
            state.pose is Standing ==> r == 1,
            state.pose is Sitting ==> r == 2,
            state.pose is Running ==> r == 3,
            state.pose is Star ==> r == 4,
    {
        match state.pose {
            Pose::Standing => 1,
            Pose::Sitting => 2,
            Pose::Running => 3,
            Pose::Star => 4,
        }
    }
}

/// The weathering of a copper block.
#[derive(Clone, Copy, Debug, PartialEq, Eq, Structural)]
pub struct WeatheringCopper {
    pub weather_state: WeatherState,
}

impl WeatheringCopper {
    /// Weathering that has reached `weather_state`.
    pub fn new(weather_state: WeatherState) -> (r: Self)
        ensures
            r.weather_state == weather_state,
    {
        WeatheringCopper { weather_state }
    }

    /// How far the copper has weathered.
    pub fn get_weather_state(&self) -> (r: WeatherState)
        ensures
            r == self.weather_state,
    {
        self.weather_state
    }
}

/// A weathering (unwaxed) copper golem statue: it behaves as a waxed one,
/// except that honeycomb does not change its pose.
#[derive(Clone, Copy, Debug, PartialEq, Eq, Structural)]
pub struct WeatheringCopperGolemStatueBlock {
    pub copper_golem_statue_block: CopperGolemStatueBlock,
    pub weathering: WeatheringCopper,
}

impl WeatheringCopperGolemStatueBlock {
    /// The behaviour of weathering statue block `block`, weathered to `weather_state`.
    pub fn new(block: BlockRef, weather_state: WeatherState) -> (r: Self)
        ensures
            r.copper_golem_statue_block.block == block,
            r.weathering.weather_state == weather_state,
    {
        WeatheringCopperGolemStatueBlock {
            copper_golem_statue_block: CopperGolemStatueBlock::new(block),
            weathering: WeatheringCopper::new(weather_state),
        }
    }

    /// Placed as a waxed statue is.
    pub fn get_state_for_placement(&self, context: &BlockPlaceContext) -> (r: Option<StatueState>)
        requires
            is_horizontal(context.horizontal_direction),
            context.item.block_state is Some,
            context.item.block_state.unwrap()@.contains_key(pose_key()),
        ensures
            r == Some(
                placed_state(
                    self.copper_golem_statue_block.block,
                    context.horizontal_direction,
                    context.water_source,
                    pose_named(context.item.block_state.unwrap()@[pose_key()]),
                ),
            ),
            is_horizontal(r.unwrap().facing),
            r.unwrap().block == self.copper_golem_statue_block.block,
            r.unwrap().pose == pose_named(context.item.block_state.unwrap()@[pose_key()]),
            r.unwrap().waterlogged == context.water_source,
            opposite_direction(r.unwrap().facing) == context.horizontal_direction,
    {
        self.copper_golem_statue_block.get_state_for_placement(context)
    }

    /// Removed as a waxed statue is.
    pub fn affect_neighbors_after_removal(
        &self,
        state: StatueState,
        pos: BlockPos,
        moved_by_piston: bool,
    ) -> (r: OutputSignalUpdate)
        ensures
            r == (OutputSignalUpdate { pos, block: state.block }),
    {
        self.copper_golem_statue_block.affect_neighbors_after_removal(state, pos, moved_by_piston)
    }

    /// Using an item on the statue: an axe or honeycomb does nothing; anything
    /// else turns the statue at `pos` to its next pose.
    pub fn use_item_on(&self, state: StatueState, pos: BlockPos, held: HeldItem) -> (r: UseItemOutcome)
        ensures
            r == weathering_use_outcome(state, held),
            held.in_axes_tag || held.is_honeycomb ==> r.result == InteractionResult::Pass
                && r.new_state is None,
            !held.in_axes_tag && !held.is_honeycomb ==> r.result == InteractionResult::Success
                && r.new_state == Some(
                StatueState {
                    block: state.block,
                    facing: state.facing,
                    pose: next_pose(state.pose),
                    waterlogged: state.waterlogged,
                },
            ),
    {
        if !held.in_axes_tag {
            if held.is_honeycomb {
                return UseItemOutcome { result: InteractionResult::Pass, new_state: None };
            }
            return self.copper_golem_statue_block.use_item_on(state, pos, held);
        }
        UseItemOutcome { result: InteractionResult::Pass, new_state: None }
    }

    /// Picked as a waxed statue is.
    pub fn get_clone_item_stack(&self, block: BlockRef, state: StatueState, include_data: bool) -> (r:
        Option<ItemStack>)
        ensures
            r is Some,
            r.unwrap().item == block,
            r.unwrap().count == 1,
            r.unwrap().block_state is Some,
            r.unwrap().block_state.unwrap()@ == pose_properties(state.pose),
    {
        self.copper_golem_statue_block.get_clone_item_stack(block, state, include_data)
    }

    /// Pathed through as a waxed statue is.
    pub fn is_pathfindable(&self, state: StatueState, computation_type: PathComputationType) -> (r: bool)
        ensures
            r == statue_pathfindable(state, computation_type),
            r ==> computation_type is Water && state.waterlogged,
            computation_type is Water && state.waterlogged ==> r,
    {
        self.copper_golem_statue_block.is_pathfindable(state, computation_type)
    }

    /// Collides as a waxed statue does.
    pub fn get_collision_shape(&self, state: StatueState, pos: BlockPos) -> (r: VoxelShape)
        ensures
            r.boxes@ == seq![statue_box()],
    {
        self.copper_golem_statue_block.get_collision_shape(state, pos)
    }

    /// Gives a comparator signal, as a waxed statue does.
    pub fn has_analog_output_signal(&self, state: StatueState) -> (r: bool)
        ensures
            r,
    {
        self.copper_golem_statue_block.has_analog_output_signal(state)
    }

    /// The comparator signal, as a waxed statue gives it.
    pub fn get_analog_output_signal(&self, state: StatueState, pos: BlockPos, direction: Direction) -> (r:
        i32)
        ensures
            r == statue_signal(state),
            state.pose is Standing ==> r == 1,
            state.pose is Sitting ==> r == 2,
            state.pose is Running ==> r == 3,
            state.pose is Star ==> r == 4,
    {
        self.copper_golem_statue_block.get_analog_output_signal(state, pos, direction)
    }
}

/// Four successful clicks bring a statue back to the state it was in.
pub proof fn lemma_four_clicks_restore_state(s: StatueState)
    ensures
        posed_next(posed_next(posed_next(posed_next(s)))) == s,
        posed_next(s).facing == s.facing,
        posed_next(s).waterlogged == s.waterlogged,
        posed_next(s).block == s.block,
{
    crate::pose::lemma_pose_cycle(s.pose);
}

/// A weathering statue answers an item as a waxed one does, except that
/// honeycomb (outside the axes tag) does nothing to it where it would turn a
/// waxed statue.
pub proof fn lemma_weathering_use_refines_waxed(state: StatueState, held: HeldItem)
    ensures
        !held.is_honeycomb ==> weathering_use_outcome(state, held) == waxed_use_outcome(state, held),
        held.is_honeycomb ==> weathering_use_outcome(state, held) == passed(),
        held.is_honeycomb && !held.in_axes_tag ==> waxed_use_outcome(state, held) == reposed(state),
{
}

/// A statue picked as an item and placed again shows the pose it had.
pub proof fn lemma_pick_then_place_keeps_pose(p: Pose)
    ensures
        pose_properties(p).contains_key(pose_key()),
        pose_named(pose_properties(p)[pose_key()]) == p,
{
    crate::pose::lemma_pose_name_round_trip(p);
}

/// A placed statue faces the player who placed it, and it is horizontal.
pub proof fn lemma_placed_statue_faces_player(block: BlockRef, looking: Direction, in_water: bool, pose: Pose)
    requires
        is_horizontal(looking),
    ensures
        opposite_direction(placed_state(block, looking, in_water, pose).facing) == looking,
        is_horizontal(placed_state(block, looking, in_water, pose).facing),
{
}

/// Clicking a statue raises its comparator signal by one, from 4 back to 1.
pub proof fn lemma_click_raises_signal(s: StatueState)
    ensures
        statue_signal(posed_next(s)) == statue_signal(s) % 4 + 1,
        1 <= statue_signal(s) <= 4,
{
    crate::pose::lemma_signal_follows_pose(s.pose, s.pose);
}

/// The placed statue shows the pose the item's property names, whichever
/// horizontal way the player looks: the names of the four poses give those
/// poses, and two players looking different ways place the same pose. The
/// statue keeps the block, and holds water exactly when placed in a water source.
pub proof fn lemma_placement_shows_item_pose(
    block: BlockRef,
    looking: Direction,
    other_looking: Direction,
    in_water: bool,
    name: Seq<char>,
)
    requires
        is_horizontal(looking),
        is_horizontal(other_looking),
    ensures
        placed_state(block, looking, in_water, pose_named(name)).pose == pose_named(name),
        placed_state(block, looking, in_water, pose_named(name)).pose == placed_state(
            block,
            other_looking,
            in_water,
            pose_named(name),
        ).pose,
        placed_state(block, looking, in_water, pose_named(name)).block == block,
        placed_state(block, looking, in_water, pose_named(name)).waterlogged == in_water,
        name == "standing"@ ==> placed_state(block, looking, in_water, pose_named(name)).pose
            == Pose::Standing,
        name == "sitting"@ ==> placed_state(block, looking, in_water, pose_named(name)).pose
            == Pose::Sitting,
        name == "running"@ ==> placed_state(block, looking, in_water, pose_named(name)).pose
            == Pose::Running,
        name == "star"@ ==> placed_state(block, looking, in_water, pose_named(name)).pose
            == Pose::Star,
{
    crate::pose::lemma_pose_name_round_trip(Pose::Standing);
    crate::pose::lemma_pose_name_round_trip(Pose::Sitting);
    crate::pose::lemma_pose_name_round_trip(Pose::Running);
    crate::pose::lemma_pose_name_round_trip(Pose::Star);
}

/// A statue picked as an item and placed again by a player looking any
/// horizontal way shows the pose it had.
pub proof fn lemma_pick_then_place_any_direction(
    block: BlockRef,
    looking: Direction,
    in_water: bool,
    p: Pose,
)
    requires
        is_horizontal(looking),
    ensures
        placed_state(block, looking, in_water, pose_named(pose_properties(p)[pose_key()])).pose == p,
{
    crate::pose::lemma_pose_name_round_trip(p);
}

/// An item in the axes tag does nothing to any statue, waxed or weathering,
/// in any pose; honeycomb does nothing to a weathering statue; any other item
/// succeeds and sets the statue to the same state with the following pose.
pub proof fn lemma_axe_does_nothing(state: StatueState, held: HeldItem)
    ensures
        held.in_axes_tag ==> waxed_use_outcome(state, held) == (UseItemOutcome {
            result: InteractionResult::Pass,
            new_state: None,
        }),
        held.in_axes_tag ==> weathering_use_outcome(state, held) == (UseItemOutcome {
            result: InteractionResult::Pass,
            new_state: None,
        }),
        held.is_honeycomb ==> weathering_use_outcome(state, held).result == InteractionResult::Pass
            && weathering_use_outcome(state, held).new_state is None,
        !held.in_axes_tag ==> waxed_use_outcome(state, held).result == InteractionResult::Success,
        !held.in_axes_tag ==> waxed_use_outcome(state, held).new_state is Some,
        !held.in_axes_tag ==> ({
            let n = waxed_use_outcome(state, held).new_state.unwrap();
            &&& n.block == state.block
            &&& n.facing == state.facing
            &&& n.waterlogged == state.waterlogged
            &&& n.pose == next_pose(state.pose)
            &&& n.pose != state.pose
        }),
{
    crate::pose::lemma_pose_cycle(state.pose);
}

/// The comparator signal depends on the pose alone, not on the facing, block
/// or water: standing 1, sitting 2, running 3, star 4.
pub proof fn lemma_signal_depends_only_on_pose(s: StatueState, t: StatueState)
    ensures
        s.pose == t.pose ==> statue_signal(s) == statue_signal(t),
        s.pose is Standing ==> statue_signal(s) == 1,
        s.pose is Sitting ==> statue_signal(s) == 2,
        s.pose is Running ==> statue_signal(s) == 3,
        s.pose is Star ==> statue_signal(s) == 4,
{
}

/// Mobs path through a statue only when swimming through a waterlogged one:
/// never for land or air paths, wet or dry, and never through a dry statue.
pub proof fn lemma_pathfinding_only_swimming(s: StatueState, ty: PathComputationType)
    ensures
        statue_pathfindable(s, ty) <==> (ty is Water && s.waterlogged),
        ty is Land ==> !statue_pathfindable(s, ty),
        ty is Air ==> !statue_pathfindable(s, ty),
        !s.waterlogged ==> !statue_pathfindable(s, ty),
{
}

/// Every copper golem statue, whatever its weathering and waxing, belongs to
/// the statues tag, and no other block does.
pub proof fn lemma_statues_keep_block_entity(weather_state: WeatherState, waxed: bool, id: u32)
    ensures
        is_copper_golem_statue(BlockRef::CopperGolemStatue { weather_state, waxed }),
        !is_copper_golem_statue(BlockRef::Other { id }),
{
}

} // verus!
