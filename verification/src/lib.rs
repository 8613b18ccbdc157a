//! Layout engine for a two-game chess score report.
//!
//! The crate computes everything about the report that is pure data: the
//! shared row budget of the move grid, the placement of every move, header
//! and result cell, the canonical export URL of a game link, and the style
//! description of each cell. Writing the cells into an actual workbook,
//! fetching games over the network and serving requests are left to the
//! binary built on top of this crate.

pub mod cells;
pub mod data;
pub mod formatter;
pub mod grid;
pub mod lichess;
pub mod pgn;
pub mod report;
pub mod styles;
pub mod utils;
