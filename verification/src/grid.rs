use vstd::prelude::*;
use crate::cells::{array_rows, cell, CellArray};

verus! {

/// A grid of iteration counts, `height` rows of `width` cells, neither zero.
pub struct Grid {
    cells: CellArray,
    height: usize,
    width: usize,
}

impl View for Grid {
    type V = Seq<Seq<i32>>;

    /// The rows of the grid, first row first, each row left to right.
    closed spec fn view(&self) -> Seq<Seq<i32>> {
        array_rows(self.cells)
    }
}

impl Grid {
    #[verifier::type_invariant]
    spec fn rectangular(&self) -> bool {
        &&& self.height >= 1
        &&& self.width >= 1
        &&& array_rows(self.cells).len() == self.height
        &&& forall|y: int|
            0 <= y < self.height ==> (#[trigger] array_rows(self.cells)[y]).len() == self.width
    }

    /// Takes over a filled buffer of `height` rows of `width` cells.
    pub(crate) fn from_cells(cells: CellArray, height: usize, width: usize) -> (grid: Grid)
        requires
            height >= 1,
            width >= 1,
            array_rows(cells).len() == height,
            forall|y: int| 0 <= y < height ==> (#[trigger] array_rows(cells)[y]).len() == width,
        ensures
            grid@ == array_rows(cells),
    {
        Grid { cells, height, width }
    }

    /// The number of rows.
    pub fn height(&self) -> (h: usize)
        ensures
            h == self@.len(),
            h >= 1,
    {
        proof {
            use_type_invariant(self);
        }
        self.height
    }

    /// The number of cells in every row.
    pub fn width(&self) -> (w: usize)
        ensures
            forall|y: int| 0 <= y < self@.len() ==> (#[trigger] self@[y]).len() == w,
            w >= 1,
    {
        proof {
            use_type_invariant(self);
        }
        self.width
    }

    /// The count in column `x` of row `y`, if the grid has such a cell.
    pub fn get(&self, y: usize, x: usize) -> (v: Option<i32>)
        ensures
            match v {
                Some(count) => y < self@.len() && x < self@[y as int].len() && count
                    == self@[y as int][x as int],
                None => !(y < self@.len() && x < self@[y as int].len()),
            },
    {
        proof {
            use_type_invariant(self);
        }
        if y < self.height && x < self.width {
            Some(cell(&self.cells, y, x))
        } else {
            None
        }
    }

    /// A copy of row `y`, left to right, if the grid has such a row.
    pub fn row(&self, y: usize) -> (out: Option<Vec<i32>>)
        ensures
            match out {
                Some(row) => y < self@.len() && row@ == self@[y as int],
                None => y >= self@.len(),
            },
    {
        proof {
            use_type_invariant(self);
        }
        if y >= self.height {
            return None;
        }
        let mut row: Vec<i32> = Vec::new();
        let mut x: usize = 0;
        while x < self.width
            invariant
                y < self.height,
                x <= self.width,
                array_rows(self.cells).len() == self.height,
                array_rows(self.cells)[y as int].len() == self.width,
                row@ == array_rows(self.cells)[y as int].take(x as int),
            decreases self.width - x,
        {
            row.push(cell(&self.cells, y, x));
            x = x + 1;
        }
        Some(row)
    }

    /// A copy of all rows, first row first.
    pub fn to_rows(&self) -> (rows: Vec<Vec<i32>>)
        ensures
            rows.len() == self@.len(),
            forall|y: int| 0 <= y < rows.len() ==> (#[trigger] rows[y])@ == self@[y],
    {
        let height = self.height();
        let mut rows: Vec<Vec<i32>> = Vec::new();
        let mut y: usize = 0;
        while y < height
            invariant
                height == self@.len(),
                y <= height,
                rows.len() == y,
                forall|k: int| 0 <= k < y ==> (#[trigger] rows[k])@ == self@[k],
            decreases height - y,
        {
            match self.row(y) {
                Some(row) => { rows.push(row); },
                None => {},
            }
            y = y + 1;
        }
        rows
    }
}

} // verus!
