//! A pocket-cube engine: corner positions and twists as two parallel
//! arrays, one composition operator, and the face turns derived from a
//! small generating set by repeated self-composition.

pub mod cube;
pub mod laws;
pub mod model;
pub mod orientation;

pub use crate::cube::Cube;
