//! Core of a cutscene player: sheet discovery, bounded background decoding,
//! an append-only per-video sheet cache, and a wall-clock-driven playback
//! state machine. All rendering, audio output and file reading live outside
//! this crate; the core works on plain values handed in each tick.

use vstd::prelude::*;

pub mod cache;
pub mod catalog;
pub mod decode;
pub mod player;
pub mod queue;

verus! {

/// Frames packed into one sprite sheet: a 3-column by 8-row grid.
pub const FRAMES_PER_SHEET: u64 = 24;

/// Columns of the fixed sub-image grid inside one sheet.
pub const GRID_COLS: u64 = 3;

/// Playback rate in frames per second.
pub const FRAMES_PER_SECOND: u64 = 15;

pub const MICROS_PER_SECOND: u64 = 1_000_000;

/// Upper bound on the sheet probe, so a misconfigured path cannot cause an
/// unbounded storage scan; it also keeps every frame index small.
pub const MAX_SHEETS: usize = 1000;

/// Width in pixels of one sub-image within a sheet.
pub const FRAME_WIDTH: u32 = 600;

/// Height in pixels of one sub-image within a sheet.
pub const FRAME_HEIGHT: u32 = 250;

} // verus!
