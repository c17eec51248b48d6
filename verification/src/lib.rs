//! A small kinematic core for a ball that drifts inside a large circular
//! arena whose wall is a ring of straight segments.
//!
//! The arena wall is built once as a regular polygon inscribed in the
//! desired circle; afterwards, every simulation tick advances a drift
//! state for the arena's centre, reflects its velocity off the edges of a
//! rectangular viewport, and translates the whole ring rigidly by the
//! resulting displacement.
//!
//! All geometry is carried in fixed-point integer coordinates: the
//! embedding application chooses a unit (for example one thousandth of a
//! pixel), converts its measurements into that unit at the boundary, and
//! converts the results back. This keeps every computation in the crate
//! exact and lets each contract pin the result down to the integer.

pub mod builder;
pub mod drift;
pub mod geometry;
