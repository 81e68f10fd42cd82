//! Places on the terminal screen, for mouse events.

use vstd::prelude::*;

verus! {

/// A rectangle of terminal cells: its top-left cell and its size.
#[derive(Debug, Clone, Copy, PartialEq, Eq)]
pub struct ScreenRect {
    pub x: u16,
    pub y: u16,
    pub width: u16,
    pub height: u16,
}

} // verus!
