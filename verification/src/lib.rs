//! Board/selection adapter for a graphical chess front-end.
//!
//! The crate converts between grid coordinates and file-rank notation,
//! rebuilds a board snapshot from the rules engine's serialized board, and
//! drives the two-click selection state machine that turns clicks into move
//! commands for the engine.

pub mod board;
pub mod coords;
pub mod selection;
