use vstd::prelude::*;

verus! {

/// Identifies a block type in the block catalog.
pub type BlockTypeRef = u32;

/// Placement orientation of a block.
#[derive(Clone, Copy, Debug, PartialEq, Eq, Structural)]
pub enum BlockDirection {
    North,
    South,
    East,
    West,
    Up,
    Down,
}

/// One voxel cell. A cell whose `block` is `None` is air.
#[derive(Clone, Copy, Debug, PartialEq, Eq, Structural)]
pub struct BlockState {
    pub block: Option<BlockTypeRef>,
    pub direction: BlockDirection,
    pub damage: u8,
    pub transparency: bool,
}

impl BlockState {
    pub open spec fn is_air_spec(&self) -> bool {
        self.block.is_none()
    }

    /// An air cell facing north.
    pub fn air() -> (r: BlockState)
        ensures
            r.block.is_none(),
            r.direction == BlockDirection::North,
            r.damage == 0,
            !r.transparency,
    {
        BlockState { block: None, direction: BlockDirection::North, damage: 0, transparency: false }
    }

    /// An opaque block of the given type facing north.
    pub fn solid(block: BlockTypeRef) -> (r: BlockState)
        ensures
            r.block == Some(block),
            r.direction == BlockDirection::North,
            r.damage == 0,
            !r.transparency,
    {
        BlockState { block: Some(block), direction: BlockDirection::North, damage: 0, transparency: false }
    }

    /// Whether the cell holds no block.
    pub fn is_air(&self) -> (r: bool)
        ensures
            r == self.is_air_spec(),
    {
        self.block.is_none()
    }
}

} // verus!
