//! Copper golem statues: the block behaviour of waxed and weathering statues
//! and the statue's block entity, over a plain model of block states.

pub mod pose;
pub mod types;
pub mod item;
pub mod copper_golem;
pub mod copper_golem_statue_block;
pub mod weathering_copper_golem_statue_block;
