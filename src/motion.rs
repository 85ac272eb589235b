//! Advancing a position by its velocity over one tick.
use vstd::prelude::*;

use crate::geometry::{Position, Velocity};

verus! {

pub open spec fn fits_i64(v: int) -> bool {
    i64::MIN <= v <= i64::MAX
}

/// Explicit Euler over `dt` nanoseconds: `pos + vel * dt` on each axis.
/// A negative `dt`, or a step that would leave the range of `i64`, moves
/// nothing.
pub open spec fn integrated(pos: Position, vel: Velocity, dt: int) -> Position {
    let x = pos.x + vel.x * dt;
    let y = pos.y + vel.y * dt;
    if dt < 0 || !fits_i64(x) || !fits_i64(y) {
        pos
    } else {
        Position { x: x as i64, y: y as i64 }
    }
}

/// One integration step over `dt_ns` nanoseconds; no bound is enforced here.
pub fn integrate(pos: &mut Position, vel: &Velocity, dt_ns: i64)
    ensures
        *final(pos) == integrated(*old(pos), *vel, dt_ns as int),
{
    if dt_ns < 0 {
        return ;
    }
    let dt = dt_ns as i128;
    let (vx, vy) = (vel.x as i128, vel.y as i128);
    proof {
        let b: int = 0x8000_0000_0000_0000;
        assert(-b <= vx <= b && 0 <= dt <= b ==> -b * b <= vx * dt <= b * b) by (nonlinear_arith);
        assert(-b <= vy <= b && 0 <= dt <= b ==> -b * b <= vy * dt <= b * b) by (nonlinear_arith);
    }
    let x = pos.x as i128 + vx * dt;
    let y = pos.y as i128 + vy * dt;
    if x < i64::MIN as i128 || x > i64::MAX as i128 || y < i64::MIN as i128 || y > i64::MAX as i128 {
        return ;
    }
    pos.x = x as i64;
    pos.y = y as i64;
}

} // verus!
