//! The viewport: the size of the screen and the row of the buffer that is
//! shown in its first row.

use vstd::prelude::*;

verus! {

/// The window through which the screen shows a buffer. It shows the rows
/// from `first_line_visible` up to, not including,
/// `first_line_visible + height`.
#[derive(Clone, Copy, Debug, PartialEq, Eq, Structural)]
pub struct Viewport {
    pub width: u16,
    pub height: u16,
    pub first_line_visible: u16,
}

/// The first visible row after the cursor went to row `row`: one row up
/// where `row` lies above the viewport, one row down where it lies below
/// it, else unchanged. The viewport never moves by more than one row, and
/// never past the row of the cursor.
pub open spec fn scroll_target(first_line_visible: u16, height: u16, row: u16) -> u16 {
    if row < first_line_visible {
        (first_line_visible - 1) as u16
    } else if row - first_line_visible >= height && row > first_line_visible {
        (first_line_visible + 1) as u16
    } else {
        first_line_visible
    }
}

impl Viewport {
    /// A viewport of the given size that shows the buffer from its first
    /// row.
    pub fn new(width: u16, height: u16) -> (viewport: Viewport)
        ensures
            viewport == (Viewport { width, height, first_line_visible: 0 }),
    {
        Viewport { width, height, first_line_visible: 0 }
    }

    /// A viewport without extent, for an editor that has not yet learnt the
    /// size of its screen.
    pub fn default() -> (viewport: Viewport)
        ensures
            viewport == (Viewport { width: 0, height: 0, first_line_visible: 0 }),
    {
        Viewport { width: 0, height: 0, first_line_visible: 0 }
    }

    /// Row `row` of the buffer is one of the rows that the viewport shows.
    pub open spec fn shows(&self, row: u16) -> bool {
        self.first_line_visible <= row < self.first_line_visible + self.height
    }

    /// The rows that the viewport shows: the first of them, and the row
    /// behind the last.
    pub fn get_displayable_lines(&self) -> (range: (usize, usize))
        ensures
            range.0 == self.first_line_visible,
            range.1 == self.first_line_visible + self.height,
    {
        let start = self.first_line_visible as usize;
        (start, start + self.height as usize)
    }

    /// Tells whether the viewport shows row `row` of the buffer.
    pub fn is_row_visible(&self, row: u16) -> (visible: bool)
        ensures
            visible == self.shows(row),
    {
        self.first_line_visible <= row && row - self.first_line_visible < self.height
    }

    /// Scrolls by at most one row after the cursor went to row `row` of the
    /// buffer, towards that row.
    pub fn follow(&mut self, row: u16)
        ensures
            final(self).first_line_visible == scroll_target(
                old(self).first_line_visible,
                old(self).height,
                row,
            ),
            final(self).width == old(self).width,
            final(self).height == old(self).height,
            final(self).first_line_visible == old(self).first_line_visible
                || final(self).first_line_visible == old(self).first_line_visible + 1
                || final(self).first_line_visible == old(self).first_line_visible - 1,
    {
        if row < self.first_line_visible {
            self.first_line_visible = self.first_line_visible - 1;
        } else if row - self.first_line_visible >= self.height && row
            > self.first_line_visible {
            self.first_line_visible = self.first_line_visible + 1;
        }
    }
}

} // verus!
