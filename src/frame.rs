//! One simulation tick: read the keys, move, then hold to the region.
use vstd::prelude::*;

use crate::collision::{collided, lemma_collided_inside, resolve_collision};
use crate::control::{HeldKeys, Marker, Mode, resolve_input, velocity_for};
use crate::geometry::{BoundaryRegion, Position, Velocity};
use crate::motion::{integrate, integrated};

verus! {

/// Where one tick leaves a marker at `pos` in `mode` with `keys` held for
/// `dt` nanoseconds.
pub open spec fn position_after_tick(
    region: BoundaryRegion,
    mode: Mode,
    keys: HeldKeys,
    dt: int,
    pos: Position,
) -> Position {
    let v = velocity_for(keys);
    collided(region, mode.after(keys).spec_is_drawing(), integrated(pos, v, dt), v)
}

/// A marker that starts a tick inside the region ends it inside the region:
/// the keys move it along one axis only, so the collision step has at most
/// one axis to correct.
pub proof fn lemma_tick_stays_inside(
    region: BoundaryRegion,
    mode: Mode,
    keys: HeldKeys,
    dt: int,
    pos: Position,
)
    requires
        region.wf(),
        region.contains(pos),
    ensures
        region.contains(position_after_tick(region, mode, keys, dt, pos)),
{
    let v = velocity_for(keys);
    let moved = integrated(pos, v, dt);
    assert(v.x == 0 || v.y == 0);
    assert(v.x * dt == 0 || v.y * dt == 0) by (nonlinear_arith)
        requires
            v.x == 0 || v.y == 0,
    ;
    lemma_collided_inside(region, mode.after(keys).spec_is_drawing(), moved, v);
}

/// Runs one tick in order: keys to velocity, integration over `dt_ns`
/// nanoseconds, then the collision step against `region`.
pub fn tick(
    region: &BoundaryRegion,
    keys: &HeldKeys,
    dt_ns: i64,
    marker: &mut Marker,
    vel: &mut Velocity,
    pos: &mut Position,
)
    requires
        region.wf(),
    ensures
        *final(vel) == velocity_for(*keys),
        final(marker).mode == old(marker).mode.after(*keys),
        final(marker).size == old(marker).size,
        *final(pos) == position_after_tick(*region, old(marker).mode, *keys, dt_ns as int, *old(pos)),
        region.contains(*old(pos)) ==> region.contains(*final(pos)),
{
    proof {
        if region.contains(*pos) {
            lemma_tick_stays_inside(*region, marker.mode, *keys, dt_ns as int, *pos);
        }
    }
    *vel = resolve_input(keys, marker);
    integrate(pos, vel, dt_ns);
    resolve_collision(region, marker, vel, pos);
}

} // verus!
