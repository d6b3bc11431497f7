use vstd::prelude::*;
use rayon::iter::{ParallelBridge, ParallelIterator};
use crate::arith::Arith;
use crate::region::Frame;

verus! {

/// The backing buffer of a grid: a two-dimensional `ndarray` array of counts.
/// Verus does not look inside; `array_rows` names what it holds.
#[verifier::external_body]
pub struct CellArray {
    inner: ndarray::Array2<i32>,
}

/// Exclusive access to one row of a `CellArray`: a mutable one-dimensional
/// `ndarray` view. Verus does not look inside; `row_cells` names what it holds.
#[verifier::external_body]
pub struct RowMut<'a> {
    inner: ndarray::ArrayViewMut1<'a, i32>,
}

/// The rows of an array, first row first, each row left to right.
pub uninterp spec fn array_rows(a: CellArray) -> Seq<Seq<i32>>;

/// The cells that a row view gives access to, left to right.
pub uninterp spec fn row_cells(r: RowMut) -> Seq<i32>;

/// `ndarray::Array2::zeros` on the shape `(height, width)`: a new array of
/// `height` rows of `width` cells, every cell zero. The outside function
/// panics when the cells do not fit the address space, so such shapes are
/// left out, and so are shapes with an empty side.
#[verifier::external_body]
pub(crate) fn zeros(height: usize, width: usize) -> (a: CellArray)
    requires
        height >= 1,
        width >= 1,
        height * width * 4 <= isize::MAX,
    ensures
        array_rows(a) == Seq::new(height as nat, |y: int| Seq::new(width as nat, |x: int| 0i32)),
{
    CellArray { inner: ndarray::Array2::zeros((height, width)) }
}

/// Indexing a two-dimensional `ndarray` array by `[y, x]`: the cell in
/// column `x` of row `y`. The index panics out of bounds, so `y` and `x`
/// are required to be inside.
#[verifier::external_body]
pub(crate) fn cell(a: &CellArray, y: usize, x: usize) -> (v: i32)
    requires
        y < array_rows(*a).len(),
        x < array_rows(*a)[y as int].len(),
    ensures
        v == array_rows(*a)[y as int][x as int],
{
    a.inner[[y, x]]
}

/// Assigning through the index of a one-dimensional `ndarray` view: cell `x`
/// of the row becomes `v`, and no other cell changes. The index panics out
/// of bounds, so `x` is required to be inside.
#[verifier::external_body]
pub(crate) fn set_cell(row: &mut RowMut, x: usize, v: i32)
    requires
        x < row_cells(*old(row)).len(),
    ensures
        row_cells(*final(row)) == row_cells(*old(row)).update(x as int, v),
{
    row.inner[x] = v;
}

/// Hands every row of the array to `Arith::fill_row`, each together with
/// its index, on rayon's worker threads, and returns when all rows are done:
/// `axis_iter_mut` of `ndarray` along the first axis yields each row once,
/// first row first, as a view that no other row shares; `enumerate` numbers
/// them from zero; `par_bridge` and `for_each` of `rayon` call the closure
/// once for each item, in no fixed order. So afterwards every row is as
/// `fill_row` leaves a row of its index, and the number of rows is unchanged.
#[verifier::external_body]
pub(crate) fn for_each_row<F, Lift, Add, Sub, Mul, Div, Gt>(
    cells: &mut CellArray,
    arith: &Arith<Lift, Add, Sub, Mul, Div, Gt>,
    frame: &Frame<F>,
    width: usize,
    max_iter: usize,
) where
    F: Copy + Sync,
    Lift: Fn(usize) -> F + Sync,
    Add: Fn(F, F) -> F + Sync,
    Sub: Fn(F, F) -> F + Sync,
    Mul: Fn(F, F) -> F + Sync,
    Div: Fn(F, F) -> F + Sync,
    Gt: Fn(F, F) -> bool + Sync,

    requires
        arith.total(),
        max_iter <= i32::MAX,
        forall|y: int|
            0 <= y < array_rows(*old(cells)).len() ==> (#[trigger] array_rows(*old(cells))[y]).len()
                == width,
    ensures
        array_rows(*final(cells)).len() == array_rows(*old(cells)).len(),
        forall|y: int|
            0 <= y < array_rows(*final(cells)).len() ==> {
                &&& (#[trigger] array_rows(*final(cells))[y]).len() == width
                &&& arith.is_row(*frame, y as usize, max_iter, array_rows(*final(cells))[y])
            },
{
    cells.inner.axis_iter_mut(ndarray::Axis(0)).enumerate().par_bridge().for_each(
        |(y, row)| arith.fill_row(frame, width, max_iter, y, &mut RowMut { inner: row }),
    );
}

} // verus!
