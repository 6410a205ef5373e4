//! Window resize increments: how much a window grows or shrinks per step,
//! and the fixed space (padding, borders, tab bar) around the cell grid.
//! Sizes are carried as plain pixel counts.

use vstd::prelude::*;

verus! {

/// A window border's four widths, in pixels.
#[derive(Debug, Clone, Copy)]
pub struct BorderSize {
    pub left: usize,
    pub right: usize,
    pub top: usize,
    pub bottom: usize,
}

/// A resize increment: the cell size and the fixed base dimensions.
#[derive(Debug, Clone, Copy)]
pub struct ResizeIncrement {
    pub x: u16,
    pub y: u16,
    pub base_width: u16,
    pub base_height: u16,
}

/// The inputs a resize increment is computed from.
#[derive(Debug, Clone, Copy)]
pub struct ResizeIncrementCalculator {
    pub x: u16,
    pub y: u16,
    pub padding_left: usize,
    pub padding_top: usize,
    pub padding_right: usize,
    pub padding_bottom: usize,
    pub border: BorderSize,
    pub tab_bar_height: usize,
}

impl ResizeIncrementCalculator {
    /// The resize increment: the cell size carried over, the base width
    /// the horizontal padding plus the side borders, the base height the
    /// vertical padding plus the top and bottom borders and the tab bar
    /// (each base truncated to 16 bits, as the window system carries it).
    pub fn resize_increment(self) -> (r: ResizeIncrement)
        requires
            self.padding_left + self.padding_right + self.border.left + self.border.right
                <= usize::MAX,
            self.padding_top + self.padding_bottom + self.border.top + self.border.bottom
                + self.tab_bar_height <= usize::MAX,
        ensures
            r.x == self.x,
            r.y == self.y,
            r.base_width == (self.padding_left + self.padding_right + self.border.left
                + self.border.right) as u16,
            r.base_height == (self.padding_top + self.padding_bottom + self.border.top
                + self.border.bottom + self.tab_bar_height) as u16,
    {
        let w: usize = self.padding_left + self.padding_right + (self.border.left
            + self.border.right);
        let h: usize = self.padding_top + self.padding_bottom + (self.border.top
            + self.border.bottom) + self.tab_bar_height;
        ResizeIncrement {
            x: self.x,
            y: self.y,
            base_width: #[verifier::truncate] (w as u16),
            base_height: #[verifier::truncate] (h as u16),
        }
    }
}

} // verus!
