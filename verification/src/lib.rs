//! Core model of an NxN Rubik's cube: slice coordinates, the canonical
//! rotation-event vocabulary, the facelet state with its permutation
//! algorithms, a piece-coordinate model, a scramble generator, and a solver.

pub mod algorithms;
pub mod cube_state;
pub mod face;
pub mod notation;
pub mod pieces;
pub mod properties;
pub mod rotation;
pub mod scramble;
pub mod sequence;
pub mod slice;
pub mod solver;
