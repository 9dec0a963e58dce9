//! A grid-based snake arcade engine: segment-chain snake model, food
//! spawning by rejection sampling, a per-tick game engine with three play
//! modes, and the menu state machine that drives rounds.
//!
//! Time is measured in integer milliseconds and speed multipliers in tenths,
//! so that every timing rule is exact integer arithmetic. Rendering and
//! input plumbing live outside this crate; the engine exposes read-only
//! snapshot accessors for a presentation layer.

pub mod draw;
pub mod game;
pub mod menu;
pub mod snake;
pub mod spawn;
