//! Core state machinery of a compositor/session shell: window management
//! (hit-testing, drag/resize/snap, maximize), input routing, lock-screen
//! authentication, a bounded notification queue, screenshot region selection,
//! a power menu, and the per-tick frame-composition order.

use vstd::prelude::*;

mod sys;
pub mod chrome;
pub mod input;
pub mod lock_screen;
pub mod notifications;
pub mod screenshot;
pub mod shell;
pub mod window;

verus! {

/// Height of the decoration title bar drawn above each client rectangle.
pub const TITLE_BAR_HEIGHT: i32 = 30;

/// Width of the invisible resize band outside each window edge.
pub const BORDER_WIDTH: i32 = 5;

/// Distance within which a dragged window snaps to a screen edge.
pub const SNAP_THRESHOLD: i32 = 20;

/// Height of the shell panel at the top of the screen.
pub const PANEL_HEIGHT: i32 = 40;

/// Smallest width and height a window may be resized to.
pub const MIN_WINDOW_SIZE: i32 = 100;

} // verus!
