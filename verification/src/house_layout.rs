//! The spatial model of a house: floors of rooms, rooms bounded by walls,
//! walls with optional doors and connection points, all measured in
//! centimeters. Each piece renders itself to the library's JSON tree and
//! is read back from it.
pub mod dimensions;
pub mod floor;
pub mod house;
pub mod room;
pub mod wall;

use vstd::prelude::*;

use crate::house_layout::dimensions::Position;

verus! {

/// A point where two walls meet.
pub type Connection = Position;

} // verus!
