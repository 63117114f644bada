//! Rectangles on the character grid, and where things go in them.

use vstd::prelude::*;

verus! {

/// The rows the banner above the start menu takes.
pub const BANNER_HEIGHT: u16 = 10;

/// The columns a list is wider than its longest line: room for the mark
/// of the cursor.
pub const LIST_PADDING: u16 = 4;

/// A rectangle on the grid: its left column, its top row, and its size.
#[derive(Clone, Copy, Debug, PartialEq, Eq, Structural)]
pub struct Area {
    pub x: u16,
    pub y: u16,
    pub width: u16,
    pub height: u16,
}

/// `n` as a `u16`, or the largest `u16` where it does not fit.
pub open spec fn capped16(n: int) -> u16 {
    if n > u16::MAX {
        u16::MAX
    } else {
        n as u16
    }
}

/// `a - b`, or zero where `b` is the larger.
pub open spec fn minus(a: int, b: int) -> int {
    if a > b {
        a - b
    } else {
        0
    }
}

/// The distance from the edge at which something `size` long sits centred
/// in a span of `span`: half of what is left over, rounded down, and zero
/// where it does not fit.
pub open spec fn margin(span: int, size: int) -> int {
    minus(span, size) / 2
}

impl Area {
    /// The rectangle at `(x, y)` with the given size, cut off where it
    /// would reach past the last column or row of the grid.
    pub open spec fn clipped(x: u16, y: u16, width: u16, height: u16) -> Area {
        Area {
            x,
            y,
            width: if width > u16::MAX - x {
                (u16::MAX - x) as u16
            } else {
                width
            },
            height: if height > u16::MAX - y {
                (u16::MAX - y) as u16
            } else {
                height
            },
        }
    }

    /// Whether the cell at `(x, y)` lies in the rectangle.
    pub open spec fn holds(self, x: int, y: int) -> bool {
        &&& self.x <= x < self.x + self.width
        &&& self.y <= y < self.y + self.height
    }

    /// A rectangle of the given size, centred in this one: as far from the
    /// left as from the right, and from the top as from the bottom, one
    /// cell less where what is left over is odd. One too large for this
    /// rectangle starts at its corner. The result is cut off at the end of
    /// the grid.
    pub open spec fn centered(self, width: u16, height: u16) -> Area {
        Area::clipped(
            capped16(self.x + margin(self.width as int, width as int)),
            capped16(self.y + margin(self.height as int, height as int)),
            width,
            height,
        )
    }

    /// The rectangle of the banner on a start screen that fills this
    /// rectangle: its full width, and its first `BANNER_HEIGHT` rows, or
    /// all where it has fewer.
    pub open spec fn banner(self) -> Area {
        Area::clipped(
            self.x,
            self.y,
            self.width,
            if self.height < BANNER_HEIGHT {
                self.height
            } else {
                BANNER_HEIGHT
            },
        )
    }

    /// The rectangle of a list of `lines` lines, the longest `longest`
    /// columns wide, on a start screen that fills this rectangle: as wide
    /// as the longest line and `LIST_PADDING`, as high as it has lines,
    /// centred in the width of the screen and in the rows under the banner,
    /// and no larger than what it is centred in.
    pub open spec fn list(self, longest: u16, lines: u16) -> Area {
        let list_width = capped16(longest + LIST_PADDING);
        let below = minus(self.height as int, BANNER_HEIGHT as int);
        Area::clipped(
            capped16(self.x + margin(self.width as int, list_width as int)),
            capped16(self.y + BANNER_HEIGHT + margin(below, lines as int)),
            if list_width < self.width {
                list_width
            } else {
                self.width
            },
            if lines < below {
                lines
            } else {
                below as u16
            },
        )
    }

    /// The rectangle at `(x, y)` with the given size, cut off at the end
    /// of the grid.
    pub fn new(x: u16, y: u16, width: u16, height: u16) -> (area: Area)
        ensures
            area == Area::clipped(x, y, width, height),
            area.x + area.width <= u16::MAX,
            area.y + area.height <= u16::MAX,
    {
        let max_width: u16 = u16::MAX - x;
        let max_height: u16 = u16::MAX - y;
        Area {
            x,
            y,
            width: if width > max_width {
                max_width
            } else {
                width
            },
            height: if height > max_height {
                max_height
            } else {
                height
            },
        }
    }

    /// Whether the cell at `(x, y)` lies in the rectangle.
    pub fn contains(&self, x: u16, y: u16) -> (inside: bool)
        ensures
            inside == self.holds(x as int, y as int),
    {
        x >= self.x && (x as u32) < self.x as u32 + self.width as u32 && y >= self.y && (y as u32)
            < self.y as u32 + self.height as u32
    }

    /// A rectangle of the given size, centred in this one.
    pub fn get_centered_area(&self, width: u16, height: u16) -> (area: Area)
        ensures
            area == self.centered(width, height),
    {
        let x_offset: u16 = self.width.saturating_sub(width) / 2;
        let y_offset: u16 = self.height.saturating_sub(height) / 2;
        Area::new(self.x.saturating_add(x_offset), self.y.saturating_add(y_offset), width, height)
    }

    /// The rectangle of the banner on a start screen that fills this one.
    pub fn banner_area(&self) -> (area: Area)
        ensures
            area == self.banner(),
    {
        let height: u16 = if self.height < BANNER_HEIGHT {
            self.height
        } else {
            BANNER_HEIGHT
        };
        Area::new(self.x, self.y, self.width, height)
    }

    /// The rectangle of the list on a start screen that fills this one.
    pub fn list_area(&self, longest: u16, lines: u16) -> (area: Area)
        ensures
            area == self.list(longest, lines),
    {
        let list_width: u16 = longest.saturating_add(LIST_PADDING);
        let remaining_height: u16 = self.height.saturating_sub(BANNER_HEIGHT);
        let offset_y: u16 = remaining_height.saturating_sub(lines) / 2;
        let list_y: u16 = self.y.saturating_add(BANNER_HEIGHT).saturating_add(offset_y);
        let offset_x: u16 = self.width.saturating_sub(list_width) / 2;
        let list_x: u16 = self.x.saturating_add(offset_x);
        Area::new(
            list_x,
            list_y,
            if list_width < self.width {
                list_width
            } else {
                self.width
            },
            if lines < remaining_height {
                lines
            } else {
                remaining_height
            },
        )
    }
}

/// A rectangle centred in one that lies on the grid lies within it, where
/// it is no larger, and has the size asked for.
pub proof fn lemma_centered_within(area: Area, width: u16, height: u16)
    requires
        area.x + area.width <= u16::MAX,
        area.y + area.height <= u16::MAX,
        width <= area.width,
        height <= area.height,
    ensures
        area.centered(width, height).width == width,
        area.centered(width, height).height == height,
        area.x <= area.centered(width, height).x,
        area.centered(width, height).x + width <= area.x + area.width,
        area.y <= area.centered(width, height).y,
        area.centered(width, height).y + height <= area.y + area.height,
        area.centered(width, height).x - area.x == margin(area.width as int, width as int),
        (area.x + area.width) - (area.centered(width, height).x + width) - (area.centered(
            width,
            height,
        ).x - area.x) <= 1,
{
}

} // verus!
