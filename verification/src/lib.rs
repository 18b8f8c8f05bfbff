//! Core of an isometric tile-grid rendering demo: exact rational scalars,
//! orthographic projection and view matrices, a staggered-row grid mesh
//! builder, the render-loop state machine, and texture pixel preparation.
//! Windowing and GPU calls live outside the library; it hands them plain
//! buffers, matrices and decisions.

pub mod driver;
pub mod grid;
pub mod matrix;
pub mod rat;
pub mod scene;
pub mod texture;
