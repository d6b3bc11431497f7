//! Escape-time kernel for the Mandelbrot set.
//!
//! The kernel maps the pixels of a grid to sample points of a region of the
//! complex plane, iterates `z <- z * z + c` from zero for each of them, and
//! records after how many steps `z` has escaped, up to a cap. Rows are filled
//! by independent tasks that run in parallel.
//!
//! The kernel is written over a scalar arithmetic that its caller supplies
//! (`arith`), and every contract is stated over what that arithmetic may
//! return. `orbit` holds the recurrence, `region` the validation and the
//! mapping from pixels to sample points, `kernel` the grid computation,
//! `grid` the result, `cells` the buffer behind it, and `laws` what holds of
//! all of them when the arithmetic is deterministic.

use vstd::prelude::*;

pub mod arith;
pub mod cells;
pub mod grid;
pub mod kernel;
pub mod laws;
pub mod orbit;
pub mod region;

verus! {

/// Adds two unsigned integers whose sum fits in 64 bits.
pub fn add(left: u64, right: u64) -> (sum: u64)
    requires
        left + right <= u64::MAX,
    ensures
        sum == left + right,
{
    left + right
}

} // verus!
