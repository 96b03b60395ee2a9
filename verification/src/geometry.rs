//! Places and directions.

use vstd::prelude::*;
use crate::float_bits::Double;

verus! {

/// The place of a block.
#[derive(Clone, Copy, Debug, PartialEq, Eq, Structural)]
pub struct BlockPos {
    pub x: i32,
    pub y: i32,
    pub z: i32,
}

impl BlockPos {
    pub fn new(x: i32, y: i32, z: i32) -> (result: BlockPos)
        ensures
            result == (BlockPos { x, y, z }),
    {
        BlockPos { x, y, z }
    }
}

/// A point or a vector in space.
#[derive(Clone, Copy, Debug, PartialEq, Eq, Structural)]
pub struct Vec3 {
    pub x: Double,
    pub y: Double,
    pub z: Double,
}

/// A coordinate axis.
#[derive(Clone, Copy, Debug, PartialEq, Eq, Structural)]
pub enum Axis {
    X,
    Y,
    Z,
}

/// One of the six faces of a block.
#[derive(Clone, Copy, Debug, PartialEq, Eq, Structural)]
pub enum Direction {
    Down,
    Up,
    North,
    South,
    West,
    East,
}

impl Direction {
    /// The axis that the direction lies along.
    pub open spec fn spec_axis(self) -> Axis {
        match self {
            Direction::Down | Direction::Up => Axis::Y,
            Direction::North | Direction::South => Axis::Z,
            Direction::West | Direction::East => Axis::X,
        }
    }

    /// The axis that the direction lies along.
    #[verifier::when_used_as_spec(spec_axis)]
    pub fn axis(self) -> (result: Axis)
        ensures
            result == self.spec_axis(),
    {
        match self {
            Direction::Down | Direction::Up => Axis::Y,
            Direction::North | Direction::South => Axis::Z,
            Direction::West | Direction::East => Axis::X,
        }
    }
}

} // verus!
