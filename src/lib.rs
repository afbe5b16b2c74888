//! Simulation core of a snake-and-fruit game on a toroidal grid.
//!
//! The library holds the game state and every rule that changes it: snake movement with
//! edge wrapping, collision checks, deterministic fruit placement and the input debouncer.
//! Drawing and reading the gamepad belong to the host; the library hands it plain values.
pub mod geometry;
pub mod snake;
pub mod fruit;
pub mod placement;
pub mod game;
