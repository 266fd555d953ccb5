//! A verified engine for a grid-based snake game.
//!
//! The library holds the pure game logic: integer-grid geometry, food
//! placement, the per-tick snake state transition, and the key-to-message
//! mapping. Randomness, timers, rendering and persistence are left to the
//! surrounding application, which feeds the engine plain values (candidate
//! food cells, key strings) and reads plain values back.

pub mod food;
pub mod geometry;
pub mod input;
pub mod laws;
pub mod state;
