//! What the renderer is handed for the marker after each tick.
use vstd::prelude::*;

use crate::control::Marker;
use crate::geometry::Position;

verus! {

/// Translation and scale of the marker's renderable, in position units.
#[derive(Clone, Copy, Debug, PartialEq, Eq, Structural)]
pub struct Placement {
    pub x: i64,
    pub y: i64,
    pub scale_x: i64,
    pub scale_y: i64,
}

/// The marker's final position as translation and its size as scale on
/// both axes.
pub fn placement(marker: &Marker, pos: &Position) -> (p: Placement)
    ensures
        p == (Placement { x: pos.x, y: pos.y, scale_x: marker.size, scale_y: marker.size }),
{
    Placement { x: pos.x, y: pos.y, scale_x: marker.size, scale_y: marker.size }
}

} // verus!
