//! The screen buffer as the session sees it.

use vstd::prelude::*;

verus! {

/// A screen buffer, reduced to what the session decides on: its dimensions
/// and whether it scrolls along each axis. Cells, cursor and drawing belong
/// to the renderer.
#[derive(Copy, Clone, Debug, PartialEq, Eq, Structural)]
pub struct CharGrid {
    pub width: u32,
    pub height: u32,
    pub scroll_x: bool,
    pub scroll_y: bool,
}

impl CharGrid {
    /// A buffer of `width` columns and `height` rows.
    pub fn new(width: u32, height: u32, scroll_x: bool, scroll_y: bool) -> (grid: CharGrid)
        ensures
            grid == (CharGrid { width, height, scroll_x, scroll_y }),
    {
        CharGrid { width, height, scroll_x, scroll_y }
    }

    /// Changes the number of columns and nothing else.
    pub fn set_width(&mut self, cols: u32)
        ensures
            *final(self) == (CharGrid { width: cols, ..*old(self) }),
    {
        self.width = cols;
    }

    /// Changes the number of rows and nothing else.
    pub fn set_height(&mut self, rows: u32)
        ensures
            *final(self) == (CharGrid { height: rows, ..*old(self) }),
    {
        self.height = rows;
    }
}

} // verus!
