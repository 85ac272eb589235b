//! Holding the marker inside the boundary region after it has moved.
use vstd::prelude::*;

use crate::control::Marker;
use crate::geometry::{BoundaryRegion, Direction, Position, Velocity};

verus! {

/// The region the marker is held to this tick. A marker that is neither on
/// an edge nor drawing may only walk the perimeter: the edge ahead of its
/// travel is pulled in to its own coordinate on that axis, as long as it is
/// strictly between the two bounds of that axis (so no bound ever crosses the
/// other). In drawing mode, or on an edge, the region is left as it is.
pub open spec fn confined_region(
    region: BoundaryRegion,
    drawing: bool,
    pos: Position,
    vel: Velocity,
) -> BoundaryRegion {
    if region.on_border(pos) || drawing {
        region
    } else {
        match vel.spec_direction() {
            Direction::Up => if region.min_y < pos.y < region.max_y {
                BoundaryRegion { min_y: pos.y, ..region }
            } else {
                region
            },
            Direction::Right => if region.min_x < pos.x < region.max_x {
                BoundaryRegion { max_x: pos.x, ..region }
            } else {
                region
            },
            Direction::Down => if region.min_y < pos.y < region.max_y {
                BoundaryRegion { max_y: pos.y, ..region }
            } else {
                region
            },
            Direction::Left => if region.min_x < pos.x < region.max_x {
                BoundaryRegion { min_x: pos.x, ..region }
            } else {
                region
            },
            Direction::Still => region,
        }
    }
}

/// Corrects the first of `x < min_x`, `x > max_x`, `y < min_y`, `y > max_y`
/// that holds by moving that coordinate onto the bound, and nothing else.
pub open spec fn clamped_once(r: BoundaryRegion, p: Position) -> Position {
    if p.x < r.min_x {
        Position { x: r.min_x, y: p.y }
    } else if p.x > r.max_x {
        Position { x: r.max_x, y: p.y }
    } else if p.y < r.min_y {
        Position { x: p.x, y: r.min_y }
    } else if p.y > r.max_y {
        Position { x: p.x, y: r.max_y }
    } else {
        p
    }
}

/// Where the collision step leaves a marker at `pos` moving with `vel`.
pub open spec fn collided(
    region: BoundaryRegion,
    drawing: bool,
    pos: Position,
    vel: Velocity,
) -> Position {
    clamped_once(confined_region(region, drawing, pos, vel), pos)
}

/// The region `region` confines a marker to this tick; see `confined_region`.
pub fn confine(region: &BoundaryRegion, marker: &Marker, pos: &Position, vel: &Velocity) -> (r:
    BoundaryRegion)
    requires
        region.wf(),
    ensures
        r == confined_region(*region, marker.mode.spec_is_drawing(), *pos, *vel),
        r.wf(),
        r.within(*region),
{
    let mut r = *region;
    let on_border = pos.x == region.min_x || pos.x == region.max_x || pos.y == region.min_y
        || pos.y == region.max_y;
    if !on_border && !marker.is_drawing() {
        match vel.direction() {
            Direction::Up => {
                if pos.y > region.min_y && pos.y < region.max_y {
                    r.min_y = pos.y;
                }
            },
            Direction::Right => {
                if pos.x > region.min_x && pos.x < region.max_x {
                    r.max_x = pos.x;
                }
            },
            Direction::Down => {
                if pos.y > region.min_y && pos.y < region.max_y {
                    r.max_y = pos.y;
                }
            },
            Direction::Left => {
                if pos.x > region.min_x && pos.x < region.max_x {
                    r.min_x = pos.x;
                }
            },
            Direction::Still => {},
        }
    }
    r
}

/// Moves `pos` onto `region`'s bound on the first axis it is out of, in the
/// order x-min, x-max, y-min, y-max; at most one coordinate changes.
pub fn clamp_once(region: &BoundaryRegion, pos: &mut Position)
    ensures
        *final(pos) == clamped_once(*region, *old(pos)),
{
    if pos.x < region.min_x {
        pos.x = region.min_x;
    } else if pos.x > region.max_x {
        pos.x = region.max_x;
    } else if pos.y < region.min_y {
        pos.y = region.min_y;
    } else if pos.y > region.max_y {
        pos.y = region.max_y;
    }
}

/// The collision step: holds the marker to the region of this tick (see
/// `confined_region`), correcting at most one coordinate. The shared
/// `region` itself is not changed.
pub fn resolve_collision(region: &BoundaryRegion, marker: &Marker, vel: &Velocity, pos: &mut Position)
    requires
        region.wf(),
    ensures
        *final(pos) == collided(*region, marker.mode.spec_is_drawing(), *old(pos), *vel),
        final(pos).x == old(pos).x || final(pos).y == old(pos).y,
{
    let tentative = confine(region, marker, pos, vel);
    clamp_once(&tentative, pos);
}

/// Unless the marker is out of the region on both axes at once, the
/// collision step leaves it inside the region.
pub proof fn lemma_collided_inside(
    region: BoundaryRegion,
    drawing: bool,
    pos: Position,
    vel: Velocity,
)
    requires
        region.wf(),
        region.contains_x(pos.x as int) || region.contains_y(pos.y as int),
    ensures
        region.contains(collided(region, drawing, pos, vel)),
{
}

/// The collision step never changes both coordinates.
pub proof fn lemma_collided_one_axis(
    region: BoundaryRegion,
    drawing: bool,
    pos: Position,
    vel: Velocity,
)
    ensures
        collided(region, drawing, pos, vel).x == pos.x || collided(region, drawing, pos, vel).y
            == pos.y,
{
}

/// On a position already inside the region the collision step changes
/// nothing, so running it again changes nothing either.
pub proof fn lemma_collided_idempotent(
    region: BoundaryRegion,
    drawing: bool,
    pos: Position,
    vel: Velocity,
)
    requires
        region.wf(),
    ensures
        region.contains(pos) ==> collided(region, drawing, pos, vel) == pos,
        region.contains(collided(region, drawing, pos, vel)) ==> collided(
            region,
            drawing,
            collided(region, drawing, pos, vel),
            vel,
        ) == collided(region, drawing, pos, vel),
{
}

} // verus!
