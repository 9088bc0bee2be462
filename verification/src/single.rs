//! A single block that the arrow keys push around one cell at a time.

use vstd::prelude::*;

verus! {

/// The position of the block's top-left cell. The block is two cells wide
/// and two cells high.
#[derive(Clone, Copy, PartialEq, Eq, Debug)]
pub struct App {
    pub x: u16,
    pub y: u16,
}

impl App {
    /// A block at the origin.
    pub fn new() -> (app: App)
        ensures
            app.x == 0,
            app.y == 0,
    {
        App { x: 0, y: 0 }
    }

    /// Moves the block one column to the left unless it stands in column 0.
    pub fn move_left(&mut self)
        ensures
            final(self).x == if old(self).x > 0 {
                old(self).x - 1
            } else {
                0
            },
            final(self).y == old(self).y,
    {
        if self.x > 0 {
            self.x -= 1;
        }
    }

    /// Moves the block one column to the right if it then still ends before
    /// the last of `max_x` columns.
    pub fn move_right(&mut self, max_x: u16)
        ensures
            final(self).x == if old(self).x + 2 < max_x {
                old(self).x + 1
            } else {
                old(self).x as int
            },
            final(self).y == old(self).y,
    {
        if self.x < max_x.saturating_sub(2) {
            self.x += 1;
        }
    }

    /// Moves the block one row up unless it stands in row 0.
    pub fn move_up(&mut self)
        ensures
            final(self).y == if old(self).y > 0 {
                old(self).y - 1
            } else {
                0
            },
            final(self).x == old(self).x,
    {
        if self.y > 0 {
            self.y -= 1;
        }
    }

    /// Moves the block one row down if it then still ends before the last of
    /// `max_y` rows.
    pub fn move_down(&mut self, max_y: u16)
        ensures
            final(self).y == if old(self).y + 2 < max_y {
                old(self).y + 1
            } else {
                old(self).y as int
            },
            final(self).x == old(self).x,
    {
        if self.y < max_y.saturating_sub(2) {
            self.y += 1;
        }
    }
}

} // verus!
