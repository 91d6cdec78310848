//! The closed sets of grounds, blocks and beings, and the square that holds them.
use vstd::prelude::*;

verus! {

/// What a square stands on; it decides whether a being may step onto it.
#[derive(PartialEq, Eq, Structural, Debug, Clone, Copy)]
pub enum TerrainGround {
    Soil,
    Stone,
}

/// A static obstruction on a square. Movement does not consult it.
#[derive(PartialEq, Eq, Structural, Debug, Clone, Copy)]
pub enum TerrainBlock {
    Tree,
    Soil,
    Stone,
}

/// The kind of a being that occupies a square.
#[derive(PartialEq, Eq, Structural, Debug, Clone, Copy)]
pub enum Being {
    Orc,
    Human,
}

/// One square of the grid: its ground, its block if any, and its occupant if any.
#[derive(PartialEq, Eq, Structural, Debug, Clone, Copy)]
pub struct Square {
    pub ground: TerrainGround,
    pub block: Option<TerrainBlock>,
    pub beings: Option<Being>,
}

impl TerrainGround {
    /// Whether a being may stand on this ground.
    pub open spec fn walkable(self) -> bool {
        self is Soil
    }

    pub fn is_walkable(&self) -> (r: bool)
        ensures
            r == self.walkable(),
    {
        match self {
            TerrainGround::Soil => true,
            TerrainGround::Stone => false,
        }
    }
}

impl Square {
    /// The square that a fresh grid is filled with.
    pub open spec fn spec_empty() -> Square {
        Square { ground: TerrainGround::Soil, block: None, beings: None }
    }

    pub fn empty() -> (r: Square)
        ensures
            r == Square::spec_empty(),
    {
        Square { ground: TerrainGround::Soil, block: None, beings: None }
    }
}

} // verus!
