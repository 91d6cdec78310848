//! A two-dimensional tile grid: each square has a ground, an optional block and
//! an optional being, and a being may step one square in a cardinal direction
//! when the boundary, occupancy and ground rules allow it.
use vstd::prelude::*;

pub mod grid;
pub mod terrain;

verus! {

} // verus!
