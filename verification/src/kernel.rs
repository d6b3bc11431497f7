use vstd::prelude::*;
use crate::arith::{Arith, Point};
use crate::cells::{for_each_row, row_cells, set_cell, zeros, RowMut};
use crate::grid::Grid;
use crate::region::{Frame, KernelError, Region};

verus! {

impl<F, Lift, Add, Sub, Mul, Div, Gt> Arith<Lift, Add, Sub, Mul, Div, Gt> where
    F: Copy,
    Lift: Fn(usize) -> F,
    Add: Fn(F, F) -> F,
    Sub: Fn(F, F) -> F,
    Mul: Fn(F, F) -> F,
    Div: Fn(F, F) -> F,
    Gt: Fn(F, F) -> bool,
 {
    /// `v` is a count of the pixel in column `x` of row `y`: an escape time,
    /// under the cap `max_iter`, of the pixel's sample point.
    pub open spec fn is_pixel(
        &self,
        frame: Frame<F>,
        x: usize,
        y: usize,
        max_iter: usize,
        v: i32,
    ) -> bool {
        &&& 0 <= v <= max_iter
        &&& exists|c: Point<F>| #[trigger]
            self.is_sample(frame, x, y, c) && self.escapes_after(c, max_iter as nat, v as nat)
    }

    /// Every cell of `row` is a count of its pixel in row `y`.
    pub open spec fn is_row(&self, frame: Frame<F>, y: usize, max_iter: usize, row: Seq<i32>) -> bool {
        forall|x: int|
            0 <= x < row.len() ==> self.is_pixel(frame, x as usize, y, max_iter, #[trigger] row[x])
    }

    /// `rows` is a rendering of the frame: `height` rows of `width` cells,
    /// every cell a count of its pixel.
    pub open spec fn renders(
        &self,
        frame: Frame<F>,
        width: usize,
        height: usize,
        max_iter: usize,
        rows: Seq<Seq<i32>>,
    ) -> bool {
        &&& rows.len() == height
        &&& forall|y: int|
            0 <= y < height ==> {
                &&& (#[trigger] rows[y]).len() == width
                &&& self.is_row(frame, y as usize, max_iter, rows[y])
            }
    }

    /// The work of one row task: writes the count of every pixel of row `y`
    /// into `row`, and touches nothing else.
    pub(crate) fn fill_row(
        &self,
        frame: &Frame<F>,
        width: usize,
        max_iter: usize,
        y: usize,
        row: &mut RowMut,
    )
        requires
            self.total(),
            max_iter <= i32::MAX,
            row_cells(*old(row)).len() == width,
        ensures
            row_cells(*final(row)).len() == width,
            self.is_row(*frame, y, max_iter, row_cells(*final(row))),
    {
        let mut x: usize = 0;
        while x < width
            invariant
                self.total(),
                max_iter <= i32::MAX,
                x <= width,
                row_cells(*row).len() == width,
                forall|k: int|
                    0 <= k < x ==> self.is_pixel(
                        *frame,
                        k as usize,
                        y,
                        max_iter,
                        #[trigger] row_cells(*row)[k],
                    ),
            decreases width - x,
        {
            let c = self.sample(frame, x, y);
            let count = self.escape_time(c, max_iter);
            let v = count as i32;
            assert(self.is_sample(*frame, x, y, c));
            assert(self.is_pixel(*frame, x, y, max_iter, v));
            set_cell(row, x, v);
            x = x + 1;
        }
    }
}

impl<F, Lift, Add, Sub, Mul, Div, Gt> Arith<Lift, Add, Sub, Mul, Div, Gt> where
    F: Copy + Sync,
    Lift: Fn(usize) -> F + Sync,
    Add: Fn(F, F) -> F + Sync,
    Sub: Fn(F, F) -> F + Sync,
    Mul: Fn(F, F) -> F + Sync,
    Div: Fn(F, F) -> F + Sync,
    Gt: Fn(F, F) -> bool + Sync,
 {
    /// Computes the escape-time grid of `region` at the resolution `width` by
    /// `height` under the cap `max_iter`.
    ///
    /// The inputs are judged first; a refused call does no other work. Then
    /// the grid is allocated, zeroed, and every row is filled by a task of its
    /// own, the tasks running in parallel. The call returns when all are done.
    pub fn compute(&self, width: usize, height: usize, max_iter: usize, region: &Region<F>) -> (out:
        Result<Grid, KernelError>)
        requires
            self.total(),
            max_iter <= i32::MAX,
            width * height * 4 <= isize::MAX,
        ensures
            match out {
                Ok(grid) => {
                    &&& grid@.len() == height
                    &&& forall|y: int, x: int|
                        0 <= y < height && 0 <= x < width ==> (#[trigger] grid@[y]).len() == width
                            && 0 <= #[trigger] grid@[y][x] <= max_iter
                    &&& self.is_verdict(width, height, max_iter, *region, Ok(()))
                    &&& exists|frame: Frame<F>| #[trigger]
                        self.is_frame(*region, width, height, frame) && self.renders(
                            frame,
                            width,
                            height,
                            max_iter,
                            grid@,
                        )
                },
                Err(e) => self.is_verdict(width, height, max_iter, *region, Err(e)),
            },
    {
        match self.validate(width, height, max_iter, region) {
            Err(e) => { return Err(e); },
            Ok(()) => {},
        }
        let frame = match self.frame(region, width, height) {
            Ok(frame) => frame,
            Err(e) => { return Err(e); },
        };
        assert(height * width == width * height) by (nonlinear_arith);
        let mut cells = zeros(height, width);
        for_each_row(&mut cells, self, &frame, width, max_iter);
        let grid = Grid::from_cells(cells, height, width);
        assert(self.is_frame(*region, width, height, frame));
        Ok(grid)
    }
}

} // verus!
