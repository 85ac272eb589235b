//! Positions, velocities, travel directions and the boundary rectangle.
use vstd::prelude::*;

verus! {

/// Length of one side of the playfield, in position units (10^-12 field).
pub const FIELD: i64 = 1_000_000_000_000;

/// Where an entity stands, in position units.
#[derive(Clone, Copy, Debug, PartialEq, Eq, Structural)]
pub struct Position {
    pub x: i64,
    pub y: i64,
}

/// How fast an entity moves, in position units per nanosecond.
/// `y` grows downwards: a negative `y` is upward travel.
#[derive(Clone, Copy, Debug, PartialEq, Eq, Structural)]
pub struct Velocity {
    pub x: i64,
    pub y: i64,
}

/// The travel direction read off a velocity.
#[derive(Clone, Copy, Debug, PartialEq, Eq, Structural)]
pub enum Direction {
    Up,
    Right,
    Down,
    Left,
    Still,
}

impl Velocity {
    /// The direction of travel: the sign of `x` decides first, then that of `y`.
    pub open spec fn spec_direction(self) -> Direction {
        if self.x > 0 {
            Direction::Right
        } else if self.x < 0 {
            Direction::Left
        } else if self.y > 0 {
            Direction::Down
        } else if self.y < 0 {
            Direction::Up
        } else {
            Direction::Still
        }
    }

    pub fn direction(&self) -> (d: Direction)
        ensures
            d == self.spec_direction(),
    {
        if self.x > 0 {
            Direction::Right
        } else if self.x < 0 {
            Direction::Left
        } else if self.y > 0 {
            Direction::Down
        } else if self.y < 0 {
            Direction::Up
        } else {
            Direction::Still
        }
    }
}

/// An axis-aligned rectangle that positions are confined to.
#[derive(Clone, Copy, Debug, PartialEq, Eq, Structural)]
pub struct BoundaryRegion {
    pub min_x: i64,
    pub min_y: i64,
    pub max_x: i64,
    pub max_y: i64,
}

impl BoundaryRegion {
    /// Neither pair of bounds is inverted.
    pub open spec fn wf(self) -> bool {
        self.min_x <= self.max_x && self.min_y <= self.max_y
    }

    pub open spec fn contains_x(self, x: int) -> bool {
        self.min_x <= x <= self.max_x
    }

    pub open spec fn contains_y(self, y: int) -> bool {
        self.min_y <= y <= self.max_y
    }

    pub open spec fn contains(self, p: Position) -> bool {
        self.contains_x(p.x as int) && self.contains_y(p.y as int)
    }

    /// `p` lies exactly on one of the four edges.
    pub open spec fn on_border(self, p: Position) -> bool {
        p.x == self.min_x || p.x == self.max_x || p.y == self.min_y || p.y == self.max_y
    }

    /// Every point of `self` is a point of `other`.
    pub open spec fn within(self, other: BoundaryRegion) -> bool {
        other.min_x <= self.min_x && self.max_x <= other.max_x && other.min_y <= self.min_y
            && self.max_y <= other.max_y
    }

    /// The whole field.
    pub fn full() -> (r: BoundaryRegion)
        ensures
            r.wf(),
            r == (BoundaryRegion { min_x: 0, min_y: 0, max_x: FIELD, max_y: FIELD }),
    {
        BoundaryRegion { min_x: 0, min_y: 0, max_x: FIELD, max_y: FIELD }
    }

    /// A region with the given bounds; `None` where a pair of bounds is inverted.
    pub fn new(min_x: i64, min_y: i64, max_x: i64, max_y: i64) -> (r: Option<BoundaryRegion>)
        ensures
            r is Some <==> (min_x <= max_x && min_y <= max_y),
            r matches Some(b) ==> b.wf() && b == (BoundaryRegion { min_x, min_y, max_x, max_y }),
    {
        if min_x <= max_x && min_y <= max_y {
            Some(BoundaryRegion { min_x, min_y, max_x, max_y })
        } else {
            None
        }
    }

    pub fn contains_point(&self, p: &Position) -> (r: bool)
        ensures
            r == self.contains(*p),
    {
        self.min_x <= p.x && p.x <= self.max_x && self.min_y <= p.y && p.y <= self.max_y
    }
}

} // verus!
