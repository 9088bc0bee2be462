//! A grid of cells that a cursor walks over and paints.

use vstd::prelude::*;

verus! {

/// A rectangle of cells, each filled or empty, with a cursor on one of them.
/// While `autotoggle` is set, the cursor flips every cell it moves onto.
#[derive(PartialEq, Eq, Debug)]
pub struct Grid {
    width: usize,
    height: usize,
    /// The rows from top to bottom, each from left to right.
    cells: Vec<Vec<bool>>,
    cursor_x: usize,
    cursor_y: usize,
    autotoggle: bool,
}

/// The grid as a mathematical value.
pub struct GridView {
    pub width: usize,
    pub height: usize,
    pub cells: Seq<Seq<bool>>,
    pub cursor_x: usize,
    pub cursor_y: usize,
    pub autotoggle: bool,
}

/// What is to be drawn for one cell.
#[derive(Clone, Copy, PartialEq, Eq, Debug)]
pub struct Mark {
    pub filled: bool,
    /// The cursor stands on this cell.
    pub cursor: bool,
}

impl View for Grid {
    type V = GridView;

    closed spec fn view(&self) -> GridView {
        GridView {
            width: self.width,
            height: self.height,
            cells: self.cells.deep_view(),
            cursor_x: self.cursor_x,
            cursor_y: self.cursor_y,
            autotoggle: self.autotoggle,
        }
    }
}

/// `pos + delta`, held to the range from 0 to `len - 1`.
pub open spec fn clamped(pos: int, delta: int, len: int) -> int {
    if pos + delta < 0 {
        0
    } else if pos + delta > len - 1 {
        len - 1
    } else {
        pos + delta
    }
}

/// `cells` with the cell in column `x` of row `y` flipped.
pub open spec fn flipped(cells: Seq<Seq<bool>>, x: int, y: int) -> Seq<Seq<bool>> {
    cells.update(y, cells[y].update(x, !cells[y][x]))
}

impl GridView {
    /// An empty grid with the cursor in the top-left corner and painting
    /// switched off.
    pub open spec fn blank(width: usize, height: usize) -> GridView {
        GridView {
            width,
            height,
            cells: Seq::new(height as nat, |y: int| Seq::new(width as nat, |x: int| false)),
            cursor_x: 0,
            cursor_y: 0,
            autotoggle: false,
        }
    }

    /// `cells` holds `height` rows of `width` cells each.
    pub open spec fn well_formed(self) -> bool {
        &&& self.cells.len() == self.height
        &&& forall|y: int| 0 <= y < self.height ==> (#[trigger] self.cells[y]).len() == self.width
    }

    /// The grid has at least one cell.
    pub open spec fn has_cells(self) -> bool {
        self.width > 0 && self.height > 0
    }

    /// The cursor stands on a cell of the grid.
    pub open spec fn cursor_on_grid(self) -> bool {
        self.cursor_x < self.width && self.cursor_y < self.height
    }

    /// The rows have the stated size, and the cursor stands on a cell if
    /// there is one.
    pub open spec fn valid(self) -> bool {
        self.well_formed() && (self.has_cells() ==> self.cursor_on_grid())
    }

    /// The grid with the cell under the cursor flipped.
    pub open spec fn toggled(self) -> GridView {
        GridView { cells: flipped(self.cells, self.cursor_x as int, self.cursor_y as int), ..self }
    }

    /// The grid after the cursor went `dx` columns and `dy` rows as far as
    /// the edges allow, flipping the cell it lands on while `autotoggle` is
    /// set.
    pub open spec fn moved(self, dx: int, dy: int) -> GridView {
        let landed = GridView {
            cursor_x: clamped(self.cursor_x as int, dx, self.width as int) as usize,
            cursor_y: clamped(self.cursor_y as int, dy, self.height as int) as usize,
            ..self
        };
        if self.autotoggle {
            landed.toggled()
        } else {
            landed
        }
    }

    /// What is to be drawn for the cell in column `x` of row `y`.
    pub open spec fn mark_at(self, x: int, y: int) -> Mark {
        Mark { filled: self.cells[y][x], cursor: x == self.cursor_x && y == self.cursor_y }
    }
}

impl Grid {
    #[verifier::type_invariant]
    spec fn inv(self) -> bool {
        self@.valid()
    }

    /// An empty grid of `width` by `height` cells with the cursor in the
    /// top-left corner and painting switched off.
    pub fn new(width: usize, height: usize) -> (grid: Grid)
        ensures
            grid@ == GridView::blank(width, height),
            grid@.valid(),
    {
        let grid = Grid {
            width,
            height,
            cells: vec![vec![false; width]; height],
            cursor_x: 0,
            cursor_y: 0,
            autotoggle: false,
        };
        assert(grid@.cells =~~= GridView::blank(width, height).cells);
        grid
    }

    /// Number of columns.
    pub fn width(&self) -> (width: usize)
        ensures
            width == self@.width,
    {
        self.width
    }

    /// Number of rows.
    pub fn height(&self) -> (height: usize)
        ensures
            height == self@.height,
    {
        self.height
    }

    /// Column and row of the cursor.
    pub fn cursor(&self) -> (at: (usize, usize))
        ensures
            at == (self@.cursor_x, self@.cursor_y),
    {
        (self.cursor_x, self.cursor_y)
    }

    /// Whether the cursor paints as it moves.
    pub fn autotoggle(&self) -> (on: bool)
        ensures
            on == self@.autotoggle,
    {
        self.autotoggle
    }

    /// Switches painting on or off.
    pub fn set_autotoggle(&mut self, on: bool)
        ensures
            final(self)@ == (GridView { autotoggle: on, ..old(self)@ }),
            final(self)@.valid(),
    {
        proof {
            use_type_invariant(&*self);
        }
        self.autotoggle = on;
    }

    /// The rows from top to bottom, each from left to right.
    pub fn cells(&self) -> (cells: &Vec<Vec<bool>>)
        ensures
            cells.deep_view() == self@.cells,
    {
        &self.cells
    }

    /// Flips the cell under the cursor. The grid must have a cell for the
    /// cursor to stand on.
    pub fn toggle_current(&mut self)
        requires
            old(self)@.has_cells(),
        ensures
            final(self)@ == old(self)@.toggled(),
            final(self)@.valid(),
    {
        proof {
            use_type_invariant(&*self);
        }
        assert(self@.cells[self.cursor_y as int].len() == self.width);
        flip(&mut self.cells, self.cursor_x, self.cursor_y);
    }

    /// Moves the cursor by `dx` columns and `dy` rows, stopping at the edges
    /// of the grid, and flips the cell it lands on while `autotoggle` is set.
    /// The grid must have a cell for the cursor to land on.
    pub fn move_cursor(&mut self, dx: isize, dy: isize)
        requires
            old(self)@.has_cells(),
        ensures
            final(self)@ == old(self)@.moved(dx as int, dy as int),
            final(self)@.valid(),
    {
        proof {
            use_type_invariant(&*self);
        }
        self.cursor_x = shifted(self.cursor_x, dx, self.width);
        self.cursor_y = shifted(self.cursor_y, dy, self.height);
        if self.autotoggle {
            self.toggle_current();
        }
    }

    /// The grid as the display needs it: for every cell, row by row, whether
    /// it is filled and whether the cursor stands on it.
    pub fn marks(&self) -> (rows: Vec<Vec<Mark>>)
        ensures
            rows@.len() == self@.cells.len(),
            forall|y: int|
                0 <= y < rows@.len() ==> (#[trigger] rows@[y])@.len() == self@.cells[y].len(),
            forall|x: int, y: int|
                0 <= y < rows@.len() && 0 <= x < rows@[y]@.len() ==> #[trigger] rows@[y]@[x]
                    == self@.mark_at(x, y),
    {
        let mut rows: Vec<Vec<Mark>> = Vec::new();
        let mut y: usize = 0;
        while y < self.cells.len()
            invariant
                y <= self.cells@.len(),
                rows@.len() == y,
                forall|j: int|
                    0 <= j < y ==> (#[trigger] rows@[j])@.len() == self@.cells[j].len(),
                forall|i: int, j: int|
                    0 <= j < y && 0 <= i < rows@[j]@.len() ==> #[trigger] rows@[j]@[i]
                        == self@.mark_at(i, j),
            decreases self.cells@.len() - y,
        {
            let mut row: Vec<Mark> = Vec::new();
            let mut x: usize = 0;
            while x < self.cells[y].len()
                invariant
                    y < self.cells@.len(),
                    x <= self.cells@[y as int]@.len(),
                    row@.len() == x,
                    forall|i: int|
                        0 <= i < x ==> #[trigger] row@[i] == self@.mark_at(i, y as int),
                decreases self.cells@[y as int]@.len() - x,
            {
                let cursor = x == self.cursor_x && y == self.cursor_y;
                row.push(Mark { filled: self.cells[y][x], cursor });
                x += 1;
            }
            rows.push(row);
            y += 1;
        }
        rows
    }
}

/// Flips the cell in column `x` of row `y`.
fn flip(cells: &mut Vec<Vec<bool>>, x: usize, y: usize)
    requires
        y < old(cells)@.len(),
        x < old(cells)@[y as int]@.len(),
    ensures
        final(cells).deep_view() == flipped(old(cells).deep_view(), x as int, y as int),
    no_unwind
{
    cells[y][x] = !cells[y][x];
    assert(cells.deep_view() =~~= flipped(old(cells).deep_view(), x as int, y as int));
}

/// Moves `pos` by `delta` and holds the result on a line of `len` cells.
fn shifted(pos: usize, delta: isize, len: usize) -> (moved: usize)
    requires
        len > 0,
    ensures
        moved == clamped(pos as int, delta as int, len as int),
{
    let target: i128 = pos as i128 + delta as i128;
    if target < 0 {
        0
    } else if target > (len - 1) as i128 {
        len - 1
    } else {
        target as usize
    }
}

} // verus!
