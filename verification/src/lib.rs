//! An interactive Venn-diagram deduction puzzle: the attribute domain, the
//! geometry of its zones, and the engine that drives dragging and judging.
//!
//! Two overlapping circular regions each hide a target; so does the answer
//! slot above each region. The player drags tokens from a tray into the
//! zones, and each release tells whether the token satisfies the zone.

pub mod attributes;
pub mod controller;
pub mod evaluator;
pub mod geometry;
pub mod guess;
pub mod input;
pub mod palette;
pub mod random;
pub mod render;
pub mod scene;
pub mod zones;
