//! A small verified core for a terminal panel demo: a static layout tree,
//! a cache that re-resolves geometry exactly when the viewport changes,
//! a seeded colorizer that paints each node the same color on every frame,
//! and the render-loop state machine that drives one frame per iteration.

pub mod color;
pub mod geometry;
pub mod render;
pub mod runloop;
pub mod tree;
