use vstd::prelude::*;
use crate::color::{black, spec_black, spec_white, white, Rgb};
use crate::map::{in_bounds, MAP_HEIGHT, MAP_WIDTH};

verus! {

/// What one character cell of the canvas shows.
#[derive(Clone, Copy, Debug, PartialEq, Eq, Structural)]
pub struct Cell {
    pub glyph: char,
    pub fg: Rgb,
    pub bg: Rgb,
}

/// The cell that a cleared canvas holds everywhere.
pub open spec fn blank_cell() -> Cell {
    Cell { glyph: ' ', fg: spec_white(), bg: spec_black() }
}

/// Number of cells of a canvas.
pub const CANVAS_CELLS: usize = 3600;

/// Position of cell `(x, y)` in the cell vector: column-major, like the map.
pub open spec fn cell_index(x: int, y: int) -> int {
    x * MAP_HEIGHT + y
}

/// An off-screen drawing surface the size of the map, composed once per frame
/// and then copied to the display.
pub struct Canvas {
    cells: Vec<Cell>,
    default_fg: Rgb,
}

impl Canvas {
    pub closed spec fn wf(&self) -> bool {
        self.cells@.len() == CANVAS_CELLS
    }

    /// The cell at an in-bounds position.
    pub closed spec fn cell_at(&self, x: int, y: int) -> Cell {
        self.cells@[cell_index(x, y)]
    }

    /// The colour that the next `put_char` writes with.
    pub closed spec fn foreground(&self) -> Rgb {
        self.default_fg
    }

    proof fn lemma_index(x: int, y: int)
        requires
            in_bounds(x, y),
        ensures
            0 <= cell_index(x, y) < CANVAS_CELLS,
            forall|x2: int, y2: int|
                in_bounds(x2, y2) && cell_index(x2, y2) == cell_index(x, y) ==> x2 == x && y2 == y,
    {
    }

    /// Position of in-bounds cell `(x, y)` in the cell vector.
    fn index(x: i32, y: i32) -> (k: usize)
        requires
            in_bounds(x as int, y as int),
        ensures
            k == cell_index(x as int, y as int),
            k < CANVAS_CELLS,
            forall|i: int, j: int|
                in_bounds(i, j) && cell_index(i, j) == k ==> i == x && j == y,
    {
        proof {
            Self::lemma_index(x as int, y as int);
        }
        (x as usize) * 45 + (y as usize)
    }

    /// A cleared canvas with a white foreground.
    pub fn new() -> (c: Canvas)
        ensures
            c.wf(),
            c.foreground() == spec_white(),
            forall|x: int, y: int| in_bounds(x, y) ==> #[trigger] c.cell_at(x, y) == blank_cell(),
    {
        let blank = Cell { glyph: ' ', fg: white(), bg: black() };
        let mut cells: Vec<Cell> = Vec::new();
        let mut i: usize = 0;
        while i < CANVAS_CELLS
            invariant
                i <= CANVAS_CELLS,
                cells@.len() == i,
                blank == blank_cell(),
                forall|k: int| 0 <= k < i ==> #[trigger] cells@[k] == blank_cell(),
            decreases CANVAS_CELLS - i,
        {
            cells.push(blank);
            i = i + 1;
        }
        let c = Canvas { cells, default_fg: white() };
        assert forall|x: int, y: int| in_bounds(x, y) implies #[trigger] c.cell_at(x, y) == blank_cell() by {
            Self::lemma_index(x, y);
        }
        c
    }

    /// Resets every cell to a blank glyph, white on black.
    pub fn clear(&mut self)
        requires
            old(self).wf(),
        ensures
            final(self).wf(),
            final(self).foreground() == old(self).foreground(),
            forall|x: int, y: int| in_bounds(x, y) ==> #[trigger] final(self).cell_at(x, y) == blank_cell(),
    {
        let blank = Cell { glyph: ' ', fg: white(), bg: black() };
        let mut i: usize = 0;
        while i < CANVAS_CELLS
            invariant
                i <= CANVAS_CELLS,
                self.cells@.len() == CANVAS_CELLS,
                self.default_fg == old(self).default_fg,
                blank == blank_cell(),
                forall|k: int| 0 <= k < i ==> #[trigger] self.cells@[k] == blank_cell(),
            decreases CANVAS_CELLS - i,
        {
            self.cells.set(i, blank);
            i = i + 1;
        }
        assert forall|x: int, y: int| in_bounds(x, y) implies #[trigger] self.cell_at(x, y) == blank_cell() by {
            Self::lemma_index(x, y);
        }
    }

    /// Sets the colour that later `put_char` calls write with.
    pub fn set_default_foreground(&mut self, color: Rgb)
        requires
            old(self).wf(),
        ensures
            final(self).wf(),
            final(self).foreground() == color,
            forall|x: int, y: int| in_bounds(x, y) ==> #[trigger] final(self).cell_at(x, y) == old(self).cell_at(x, y),
    {
        self.default_fg = color;
    }

    /// Writes `glyph` in the current foreground colour at `(x, y)`, keeping the
    /// cell's background. A position off the canvas changes nothing.
    pub fn put_char(&mut self, x: i32, y: i32, glyph: char)
        requires
            old(self).wf(),
        ensures
            final(self).wf(),
            final(self).foreground() == old(self).foreground(),
            forall|i: int, j: int| in_bounds(i, j) ==> #[trigger] final(self).cell_at(i, j) == (
                if i == x && j == y {
                    Cell { glyph, fg: old(self).foreground(), bg: old(self).cell_at(i, j).bg }
                } else {
                    old(self).cell_at(i, j)
                }),
    {
        if 0 <= x && x < MAP_WIDTH && 0 <= y && y < MAP_HEIGHT {
            let k = Self::index(x, y);
            let bg = self.cells[k].bg;
            self.cells.set(k, Cell { glyph, fg: self.default_fg, bg });
            assert forall|i: int, j: int| in_bounds(i, j) implies #[trigger] self.cell_at(i, j) == (
                if i == x && j == y {
                    Cell { glyph, fg: old(self).foreground(), bg: old(self).cell_at(i, j).bg }
                } else {
                    old(self).cell_at(i, j)
                }) by {
                Self::lemma_index(i, j);
            }
        }
    }

    /// Sets the background colour of `(x, y)`, keeping its glyph and foreground.
    /// A position off the canvas changes nothing.
    pub fn set_char_background(&mut self, x: i32, y: i32, color: Rgb)
        requires
            old(self).wf(),
        ensures
            final(self).wf(),
            final(self).foreground() == old(self).foreground(),
            forall|i: int, j: int| in_bounds(i, j) ==> #[trigger] final(self).cell_at(i, j) == (
                if i == x && j == y {
                    Cell { bg: color, ..old(self).cell_at(i, j) }
                } else {
                    old(self).cell_at(i, j)
                }),
    {
        if 0 <= x && x < MAP_WIDTH && 0 <= y && y < MAP_HEIGHT {
            let k = Self::index(x, y);
            let old_cell = self.cells[k];
            self.cells.set(k, Cell { bg: color, ..old_cell });
            assert forall|i: int, j: int| in_bounds(i, j) implies #[trigger] self.cell_at(i, j) == (
                if i == x && j == y {
                    Cell { bg: color, ..old(self).cell_at(i, j) }
                } else {
                    old(self).cell_at(i, j)
                }) by {
                Self::lemma_index(i, j);
            }
        }
    }

    /// The cell at `(x, y)`, or `None` off the canvas.
    pub fn cell(&self, x: i32, y: i32) -> (r: Option<Cell>)
        requires
            self.wf(),
        ensures
            r == (if in_bounds(x as int, y as int) {
                Some(self.cell_at(x as int, y as int))
            } else {
                None
            }),
    {
        if 0 <= x && x < MAP_WIDTH && 0 <= y && y < MAP_HEIGHT {
            let k = Self::index(x, y);
            Some(self.cells[k])
        } else {
            None
        }
    }
}

} // verus!
