//! Core of a terminal tower-building simulation: a context-sensitive command
//! dispatch engine, a scrollable multi-layer rendering model, and a periodic
//! economic simulation tick with clamped invariants.
//!
//! Terminal I/O, the event sources and the floating-point probability
//! computation live outside this crate; everything here is plain data in,
//! plain data out.

use vstd::prelude::*;

pub mod command;
pub mod dispatch;
pub mod game_state;
pub mod layer;
pub mod rng;
pub mod screen;
pub mod text;

verus! {

/// Width of the whole terminal window, in character cells.
pub const WINDOW_WIDTH: u16 = 120;

/// Height of the whole terminal window, in character cells.
pub const WINDOW_HEIGHT: u16 = 30;

/// Height of the reserved bottom band that holds the command-help panel.
pub const CONTROLS_HEIGHT: u16 = 11;

/// Height of the building viewport: the window minus the help panel.
pub const TOWER_WINDOW_HEIGHT: u16 = WINDOW_HEIGHT - CONTROLS_HEIGHT;

} // verus!
