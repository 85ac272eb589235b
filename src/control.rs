//! The marker, its one-way drawing modes, and how held keys set its velocity.
use vstd::prelude::*;

use crate::geometry::{FIELD, Velocity};

verus! {

/// Speed along an axis while a direction key is held: half a field per second.
pub const MAX_SPEED: i64 = 500;

/// The most a marker in fast mode may travel along an axis: `MAX_SPEED` times 1.5.
pub const FAST_SPEED: i64 = 750;

/// Drawing modes form a chain that is only ever climbed:
/// `Normal`, then `Drawing`, then `DrawingFast`.
#[derive(Clone, Copy, Debug, PartialEq, Eq, Structural)]
pub enum Mode {
    Normal,
    Drawing,
    DrawingFast,
}

/// The keys held during one tick.
#[derive(Clone, Copy, Debug, PartialEq, Eq, Structural)]
pub struct HeldKeys {
    pub up: bool,
    pub right: bool,
    pub down: bool,
    pub left: bool,
    /// Turns drawing mode on.
    pub draw: bool,
    /// Turns drawing mode and fast mode on.
    pub draw_fast: bool,
}

/// The player's token.
#[derive(Clone, Copy, Debug, PartialEq, Eq, Structural)]
pub struct Marker {
    /// Render scale, in position units.
    pub size: i64,
    pub mode: Mode,
}

impl Mode {
    pub open spec fn spec_is_drawing(self) -> bool {
        !(self is Normal)
    }

    pub open spec fn spec_is_fast(self) -> bool {
        self is DrawingFast
    }

    /// Position in the chain of modes.
    pub open spec fn rank(self) -> nat {
        match self {
            Mode::Normal => 0,
            Mode::Drawing => 1,
            Mode::DrawingFast => 2,
        }
    }

    /// The mode once `keys` have been read.
    pub open spec fn after(self, keys: HeldKeys) -> Mode {
        if keys.draw_fast {
            Mode::DrawingFast
        } else if keys.draw && self is Normal {
            Mode::Drawing
        } else {
            self
        }
    }

    /// The mode once each tick's keys of `ticks` have been read in turn.
    pub open spec fn after_all(self, ticks: Seq<HeldKeys>) -> Mode
        decreases ticks.len(),
    {
        if ticks.len() == 0 {
            self
        } else {
            self.after_all(ticks.drop_last()).after(ticks.last())
        }
    }
}

/// The velocity that `keys` call for: the first held of up, right, down and
/// left wins; with none held the marker stands still.
pub open spec fn velocity_for(keys: HeldKeys) -> Velocity {
    if keys.up {
        Velocity { x: 0, y: (-MAX_SPEED) as i64 }
    } else if keys.right {
        Velocity { x: MAX_SPEED, y: 0 }
    } else if keys.down {
        Velocity { x: 0, y: MAX_SPEED }
    } else if keys.left {
        Velocity { x: (-MAX_SPEED) as i64, y: 0 }
    } else {
        Velocity { x: 0, y: 0 }
    }
}

/// The largest speed along an axis that a marker in `mode` may have.
pub open spec fn speed_limit(mode: Mode) -> int {
    if mode.spec_is_fast() {
        FAST_SPEED as int
    } else {
        MAX_SPEED as int
    }
}

pub open spec fn abs(v: int) -> int {
    if v < 0 {
        -v
    } else {
        v
    }
}

impl Marker {
    /// A marker of full-field size, not drawing.
    pub fn new() -> (m: Marker)
        ensures
            m == (Marker { size: FIELD, mode: Mode::Normal }),
    {
        Marker { size: FIELD, mode: Mode::Normal }
    }

    pub fn is_drawing(&self) -> (r: bool)
        ensures
            r == self.mode.spec_is_drawing(),
    {
        match self.mode {
            Mode::Normal => false,
            _ => true,
        }
    }

    pub fn is_fast(&self) -> (r: bool)
        ensures
            r == self.mode.spec_is_fast(),
    {
        match self.mode {
            Mode::DrawingFast => true,
            _ => false,
        }
    }
}

/// Reads one tick's keys: returns the marker's new velocity and climbs its
/// mode where a mode key is held. The velocity depends on `keys` alone.
pub fn resolve_input(keys: &HeldKeys, marker: &mut Marker) -> (v: Velocity)
    ensures
        v == velocity_for(*keys),
        final(marker).mode == old(marker).mode.after(*keys),
        final(marker).size == old(marker).size,
{
    let v = if keys.up {
        Velocity { x: 0, y: -MAX_SPEED }
    } else if keys.right {
        Velocity { x: MAX_SPEED, y: 0 }
    } else if keys.down {
        Velocity { x: 0, y: MAX_SPEED }
    } else if keys.left {
        Velocity { x: -MAX_SPEED, y: 0 }
    } else {
        Velocity { x: 0, y: 0 }
    };
    if keys.draw_fast {
        marker.mode = Mode::DrawingFast;
    } else if keys.draw && !marker.is_drawing() {
        marker.mode = Mode::Drawing;
    }
    v
}

/// Whatever keys are held, the velocity they give stays within the speed
/// limit of the marker's mode on both axes, and moves along one axis at most.
pub proof fn lemma_velocity_within_limit(keys: HeldKeys, mode: Mode)
    ensures
        abs(velocity_for(keys).x as int) <= speed_limit(mode.after(keys)),
        abs(velocity_for(keys).y as int) <= speed_limit(mode.after(keys)),
        velocity_for(keys).x == 0 || velocity_for(keys).y == 0,
{
}

/// Modes never go back down the chain, whatever keys are held.
pub proof fn lemma_mode_never_drops(mode: Mode, keys: HeldKeys)
    ensures
        mode.rank() <= mode.after(keys).rank(),
        mode.spec_is_drawing() ==> mode.after(keys).spec_is_drawing(),
        mode.spec_is_fast() ==> mode.after(keys).spec_is_fast(),
{
}

/// Once a drawing key has been held in some tick, the marker is drawing after
/// that tick and every later one, whether or not the key is still held.
pub proof fn lemma_drawing_is_sticky(mode: Mode, ticks: Seq<HeldKeys>, pressed: int, later: int)
    requires
        0 <= pressed < later <= ticks.len(),
        ticks[pressed].draw || ticks[pressed].draw_fast,
    ensures
        mode.after_all(ticks.take(later)).spec_is_drawing(),
    decreases later,
{
    let prefix = ticks.take(later);
    assert(prefix.drop_last() =~= ticks.take(later - 1));
    assert(prefix.last() == ticks[later - 1]);
    if pressed < later - 1 {
        lemma_drawing_is_sticky(mode, ticks, pressed, later - 1);
        lemma_mode_never_drops(mode.after_all(ticks.take(later - 1)), ticks[later - 1]);
    }
}

} // verus!
