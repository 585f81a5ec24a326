use steel_core::copper_golem::{BlockEntityCreation, BlockEntityType, CopperGolemStatueBlockEntity};
use steel_core::copper_golem_statue_block::{
    CopperGolemStatueBlock, WeatheringCopper, WeatheringCopperGolemStatueBlock,
};
use steel_core::item::{BlockItemStateProperties, BlockPlaceContext, ItemStack};
use steel_core::pose::Pose;
use steel_core::types::{
    BlockLocalAabb, BlockPos, BlockRef, Direction, HeldItem, InteractionResult, PathComputationType,
    StatueState, WeatherState,
};
use steel_core::weathering_copper_golem_statue_block::WeatheringCopperGolemStatueBlock as StandingWeatheringStatue;

const POS: BlockPos = BlockPos { x: 12, y: 64, z: -7 };

fn waxed_block() -> BlockRef {
    BlockRef::CopperGolemStatue { weather_state: WeatherState::Weathered, waxed: true }
}

fn weathering_block() -> BlockRef {
    BlockRef::CopperGolemStatue { weather_state: WeatherState::Exposed, waxed: false }
}

fn state(block: BlockRef, pose: Pose, waterlogged: bool) -> StatueState {
    StatueState { block, facing: Direction::East, pose, waterlogged }
}

fn context(direction: Direction, water: bool, pose_name: Option<&str>) -> BlockPlaceContext {
    let mut item = ItemStack::new(waxed_block());
    if let Some(name) = pose_name {
        let mut props = BlockItemStateProperties::new();
        props.insert("copper_golem_pose".to_string(), name.to_string());
        item.set_block_state(props);
    }
    BlockPlaceContext { horizontal_direction: direction, water_source: water, item }
}

const AXE: HeldItem = HeldItem { in_axes_tag: true, is_honeycomb: false };
const HONEYCOMB: HeldItem = HeldItem { in_axes_tag: false, is_honeycomb: true };
const STICK: HeldItem = HeldItem { in_axes_tag: false, is_honeycomb: false };

#[test]
fn waxed_new_keeps_block() {
    assert_eq!(CopperGolemStatueBlock::new(waxed_block()).block, waxed_block());
}

#[test]
fn waxed_placement_reads_pose_and_faces_player() {
    let b = CopperGolemStatueBlock::new(waxed_block());
    let placed = b.get_state_for_placement(&context(Direction::North, false, Some("star"))).unwrap();
    assert_eq!(placed, StatueState { block: waxed_block(), facing: Direction::South, pose: Pose::Star, waterlogged: false });
    let placed = b.get_state_for_placement(&context(Direction::West, true, Some("sitting"))).unwrap();
    assert_eq!(placed, StatueState { block: waxed_block(), facing: Direction::East, pose: Pose::Sitting, waterlogged: true });
}

#[test]
fn waxed_placement_with_unknown_pose_stands() {
    let b = CopperGolemStatueBlock::new(waxed_block());
    let placed = b.get_state_for_placement(&context(Direction::East, false, Some("flying"))).unwrap();
    assert_eq!(placed.pose, Pose::Standing);
    assert_eq!(placed.facing, Direction::West);
}

#[test]
fn waxed_axe_does_nothing() {
    let b = CopperGolemStatueBlock::new(waxed_block());
    let out = b.use_item_on(state(waxed_block(), Pose::Running, false), POS, AXE);
    assert_eq!(out.result, InteractionResult::Pass);
    assert_eq!(out.new_state, None);
    let out = b.use_item_on(state(waxed_block(), Pose::Running, false), POS, HeldItem { in_axes_tag: true, is_honeycomb: true });
    assert_eq!(out.result, InteractionResult::Pass);
    assert_eq!(out.new_state, None);
}

#[test]
fn waxed_other_item_turns_pose() {
    let b = CopperGolemStatueBlock::new(waxed_block());
    let out = b.use_item_on(state(waxed_block(), Pose::Running, true), POS, STICK);
    assert_eq!(out.result, InteractionResult::Success);
    assert_eq!(out.new_state, Some(state(waxed_block(), Pose::Star, true)));
    let out = b.use_item_on(state(waxed_block(), Pose::Star, false), POS, HONEYCOMB);
    assert_eq!(out.result, InteractionResult::Success);
    assert_eq!(out.new_state, Some(state(waxed_block(), Pose::Standing, false)));
}

#[test]
fn four_clicks_restore_the_statue() {
    let b = CopperGolemStatueBlock::new(waxed_block());
    let start = state(waxed_block(), Pose::Sitting, true);
    let mut s = start;
    for _ in 0..4 {
        s = b.use_item_on(s, POS, STICK).new_state.unwrap();
    }
    assert_eq!(s, start);
}

#[test]
fn waxed_clone_item_remembers_pose() {
    let b = CopperGolemStatueBlock::new(waxed_block());
    let other = BlockRef::CopperGolemStatue { weather_state: WeatherState::Oxidized, waxed: true };
    let stack = b.get_clone_item_stack(other, state(waxed_block(), Pose::Running, false), true).unwrap();
    assert_eq!(stack.item, other);
    assert_eq!(stack.count, 1);
    let props = stack.block_state.as_ref().unwrap();
    assert_eq!(props.get("copper_golem_pose").map(|s| s.as_str()), Some("running"));
    assert_eq!(props.get("facing"), None);
}

#[test]
fn pick_then_place_keeps_pose() {
    let b = CopperGolemStatueBlock::new(waxed_block());
    for p in [Pose::Standing, Pose::Sitting, Pose::Running, Pose::Star] {
        let item = b.get_clone_item_stack(waxed_block(), state(waxed_block(), p, false), false).unwrap();
        let ctx = BlockPlaceContext { horizontal_direction: Direction::South, water_source: false, item };
        let placed = b.get_state_for_placement(&ctx).unwrap();
        assert_eq!(placed.pose, p);
        assert_eq!(placed.facing, Direction::North);
    }
}

#[test]
fn pathfinding_only_for_swimmers_in_water() {
    let b = CopperGolemStatueBlock::new(waxed_block());
    let wet = state(waxed_block(), Pose::Standing, true);
    let dry = state(waxed_block(), Pose::Standing, false);
    assert!(b.is_pathfindable(wet, PathComputationType::Water));
    assert!(!b.is_pathfindable(dry, PathComputationType::Water));
    assert!(!b.is_pathfindable(wet, PathComputationType::Land));
    assert!(!b.is_pathfindable(wet, PathComputationType::Air));
    assert!(!b.is_pathfindable(dry, PathComputationType::Land));
}

#[test]
fn collision_shape_is_the_statue_box() {
    let b = CopperGolemStatueBlock::new(waxed_block());
    let shape = b.get_collision_shape(state(waxed_block(), Pose::Star, false), POS);
    assert_eq!(shape.boxes, vec![BlockLocalAabb { min_x: 3, min_y: 0, min_z: 3, max_x: 13, max_y: 14, max_z: 13 }]);
}

#[test]
fn comparator_signal_per_pose() {
    let b = CopperGolemStatueBlock::new(waxed_block());
    assert!(b.has_analog_output_signal(state(waxed_block(), Pose::Standing, false)));
    let signal = |p| b.get_analog_output_signal(state(waxed_block(), p, false), POS, Direction::North);
    assert_eq!(signal(Pose::Standing), 1);
    assert_eq!(signal(Pose::Sitting), 2);
    assert_eq!(signal(Pose::Running), 3);
    assert_eq!(signal(Pose::Star), 4);
}

#[test]
fn click_raises_signal_by_one() {
    let b = CopperGolemStatueBlock::new(waxed_block());
    for p in [Pose::Standing, Pose::Sitting, Pose::Running, Pose::Star] {
        let s = state(waxed_block(), p, false);
        let before = b.get_analog_output_signal(s, POS, Direction::Up);
        let after = b.get_analog_output_signal(b.use_item_on(s, POS, STICK).new_state.unwrap(), POS, Direction::Up);
        assert_eq!(after, before % 4 + 1);
    }
}

#[test]
fn removal_updates_comparators() {
    let b = CopperGolemStatueBlock::new(waxed_block());
    let up = b.affect_neighbors_after_removal(state(weathering_block(), Pose::Star, false), POS, true);
    assert_eq!(up.pos, POS);
    assert_eq!(up.block, weathering_block());
}

#[test]
fn block_entity_is_created_at_pos() {
    let b = CopperGolemStatueBlock::new(waxed_block());
    let s = state(waxed_block(), Pose::Sitting, false);
    let BlockEntityCreation::Created(entity) = b.new_block_entity(POS, s);
    assert_eq!(entity, CopperGolemStatueBlockEntity::new(POS, s));
    assert_eq!(entity.base().entity_type, BlockEntityType::CopperGolemStatue);
    assert_eq!(entity.base().pos, POS);
    assert_eq!(entity.base().state, s);
}

#[test]
fn block_entity_kept_only_for_statues() {
    let b = CopperGolemStatueBlock::new(waxed_block());
    let new_state = state(waxed_block(), Pose::Standing, false);
    assert!(b.should_keep_block_entity(state(weathering_block(), Pose::Star, false), new_state));
    assert!(b.should_keep_block_entity(state(waxed_block(), Pose::Star, false), new_state));
    assert!(!b.should_keep_block_entity(state(BlockRef::Other { id: 1 }, Pose::Star, false), new_state));
}

#[test]
fn weathering_copper_state() {
    assert_eq!(WeatheringCopper::new(WeatherState::Oxidized).get_weather_state(), WeatherState::Oxidized);
    let b = WeatheringCopperGolemStatueBlock::new(weathering_block(), WeatherState::Exposed);
    assert_eq!(b.copper_golem_statue_block.block, weathering_block());
    assert_eq!(b.weathering.get_weather_state(), WeatherState::Exposed);
}

#[test]
fn weathering_honeycomb_and_axe_do_nothing() {
    let b = WeatheringCopperGolemStatueBlock::new(weathering_block(), WeatherState::Unaffected);
    for held in [AXE, HONEYCOMB, HeldItem { in_axes_tag: true, is_honeycomb: true }] {
        let out = b.use_item_on(state(weathering_block(), Pose::Sitting, false), POS, held);
        assert_eq!(out.result, InteractionResult::Pass);
        assert_eq!(out.new_state, None);
    }
}

#[test]
fn weathering_other_item_turns_pose() {
    let b = WeatheringCopperGolemStatueBlock::new(weathering_block(), WeatherState::Exposed);
    let out = b.use_item_on(state(weathering_block(), Pose::Sitting, false), POS, STICK);
    assert_eq!(out.result, InteractionResult::Success);
    assert_eq!(out.new_state, Some(state(weathering_block(), Pose::Running, false)));
}

#[test]
fn weathering_delegates_to_waxed_behaviour() {
    let b = WeatheringCopperGolemStatueBlock::new(weathering_block(), WeatherState::Exposed);
    let placed = b.get_state_for_placement(&context(Direction::North, true, Some("running"))).unwrap();
    assert_eq!(placed, StatueState { block: weathering_block(), facing: Direction::South, pose: Pose::Running, waterlogged: true });
    let s = state(weathering_block(), Pose::Running, true);
    assert!(b.is_pathfindable(s, PathComputationType::Water));
    assert!(!b.is_pathfindable(s, PathComputationType::Land));
    assert!(b.has_analog_output_signal(s));
    assert_eq!(b.get_analog_output_signal(s, POS, Direction::South), 3);
    assert_eq!(b.get_collision_shape(s, POS).boxes.len(), 1);
    let stack = b.get_clone_item_stack(weathering_block(), s, false).unwrap();
    assert_eq!(stack.item, weathering_block());
    assert_eq!(stack.block_state.as_ref().unwrap().get("copper_golem_pose").map(|v| v.as_str()), Some("running"));
    let up = b.affect_neighbors_after_removal(s, POS, false);
    assert_eq!(up.block, weathering_block());
}

#[test]
fn standing_weathering_statue_places_standing() {
    let b = StandingWeatheringStatue::new(weathering_block());
    assert_eq!(b.block, weathering_block());
    assert_eq!(b.copper_golem_statue_block.block, weathering_block());
    let placed = b.get_state_for_placement(&context(Direction::West, true, Some("star"))).unwrap();
    assert_eq!(placed, StatueState { block: weathering_block(), facing: Direction::East, pose: Pose::Standing, waterlogged: true });
    let placed = b.get_state_for_placement(&context(Direction::South, false, None)).unwrap();
    assert_eq!(placed.facing, Direction::North);
    assert!(!placed.waterlogged);
}

#[test]
fn standing_weathering_statue_drops_plain_statue_item() {
    let b = StandingWeatheringStatue::new(weathering_block());
    let stack = b.get_clone_item_stack(weathering_block(), state(weathering_block(), Pose::Star, false), true).unwrap();
    assert_eq!(stack.item, BlockRef::CopperGolemStatue { weather_state: WeatherState::Unaffected, waxed: false });
    assert_eq!(stack.count, 1);
    assert!(stack.block_state.is_none());
}

#[test]
fn standing_weathering_statue_uses_items_like_waxed() {
    let b = StandingWeatheringStatue::new(weathering_block());
    let s = state(weathering_block(), Pose::Star, false);
    let out = b.use_item_on(s, POS, HONEYCOMB);
    assert_eq!(out.result, InteractionResult::Success);
    assert_eq!(out.new_state, Some(state(weathering_block(), Pose::Standing, false)));
    let out = b.use_item_on(s, POS, AXE);
    assert_eq!(out.result, InteractionResult::Pass);
    assert_eq!(out.new_state, None);
}

#[test]
fn standing_weathering_statue_delegates() {
    let b = StandingWeatheringStatue::new(weathering_block());
    let s = state(weathering_block(), Pose::Sitting, true);
    assert!(b.is_pathfindable(s, PathComputationType::Water));
    assert!(!b.is_pathfindable(s, PathComputationType::Air));
    assert!(b.has_analog_output_signal(s));
    assert_eq!(b.get_analog_output_signal(s, POS, Direction::Down), 2);
    assert_eq!(b.get_collision_shape(s, POS).boxes[0].max_y, 14);
    assert!(b.should_keep_block_entity(s, s));
    assert!(!b.should_keep_block_entity(state(BlockRef::Other { id: 9 }, Pose::Sitting, true), s));
    let BlockEntityCreation::Created(entity) = b.new_block_entity(POS, s);
    assert_eq!(entity.base.state, s);
    assert_eq!(b.affect_neighbors_after_removal(s, POS, false).pos, POS);
}
