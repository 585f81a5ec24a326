use vstd::prelude::*;

use crate::types::{BlockPos, StatueState};

verus! {

/// The kinds of block entity these blocks create.
#[derive(Clone, Copy, Debug, PartialEq, Eq, Structural)]
pub enum BlockEntityType {
    CopperGolemStatue,
}

/// What every block entity holds: its type, its position and the state of
/// the block it belongs to.
#[derive(Clone, Copy, Debug, PartialEq, Eq, Structural)]
pub struct BlockEntityBase {
    pub entity_type: BlockEntityType,
    pub pos: BlockPos,
    pub state: StatueState,
}

impl BlockEntityBase {
    /// A block entity base of type `entity_type` at `pos`, for a block in `state`.
    pub fn new(entity_type: BlockEntityType, pos: BlockPos, state: StatueState) -> (r: Self)
        ensures
            r.entity_type == entity_type,
            r.pos == pos,
            r.state == state,
    {
        BlockEntityBase { entity_type, pos, state }
    }
}

/// The block entity of a copper golem statue.
#[derive(Clone, Copy, Debug, PartialEq, Eq, Structural)]
pub struct CopperGolemStatueBlockEntity {
    pub base: BlockEntityBase,
}

impl CopperGolemStatueBlockEntity {
    /// The statue block entity at `pos`, for a statue in `state`.
    pub fn new(pos: BlockPos, state: StatueState) -> (r: Self)
        ensures
            r.base.entity_type == BlockEntityType::CopperGolemStatue,
            r.base.pos == pos,
            r.base.state == state,
    {
        CopperGolemStatueBlockEntity {
            base: BlockEntityBase::new(BlockEntityType::CopperGolemStatue, pos, state),
        }
    }

    /// The common part of this block entity.
    pub fn base(&self) -> (r: &BlockEntityBase)
        ensures
            *r == self.base,
    {
        &self.base
    }
}

/// What asking a block for its block entity gives.
#[derive(Clone, Copy, Debug, PartialEq, Eq, Structural)]
pub enum BlockEntityCreation {
    Created(CopperGolemStatueBlockEntity),
}

} // verus!
