//! Movement and collision core of a Qix-style arcade game: one marker that
//! walks the edge of a rectangular field, or cuts across its interior once
//! drawing mode is on.
//!
//! Coordinates are fixed-point: one side of the field is [`geometry::FIELD`]
//! units, time is counted in nanoseconds, and speeds are units per nanosecond.
pub mod collision;
pub mod control;
pub mod frame;
pub mod geometry;
pub mod motion;
pub mod presentation;
