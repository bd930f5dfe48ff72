//! Turns recorded geographic tracks into a stylable vector path: each
//! segment is bounded, projected onto a fixed canvas and drawn as a
//! sequence of move, line or quadratic-curve commands.
pub mod bounds;
pub mod canvas;
pub mod path;
pub mod render;
