use vstd::prelude::*;
use crate::arith::{Arith, Point};

verus! {

/// Why a kernel call was refused.
#[derive(Clone, Copy, Debug, PartialEq, Eq, Structural)]
pub enum KernelError {
    /// The width or the height of the grid is zero.
    InvalidResolution,
    /// An upper bound of the region is not strictly greater than its lower bound.
    InvalidRegion,
    /// The iteration cap is zero.
    InvalidIterationBound,
}

/// The rectangle of the complex plane that is sampled.
#[derive(Clone, Copy)]
pub struct Region<F> {
    pub re_min: F,
    pub re_max: F,
    pub im_min: F,
    pub im_max: F,
}

/// What maps a pixel to its sample point: the lower corner of the region
/// and the distance between neighbouring samples along each axis.
#[derive(Clone, Copy)]
pub struct Frame<F> {
    pub re_min: F,
    pub im_min: F,
    pub re_step: F,
    pub im_step: F,
}

impl<F, Lift, Add, Sub, Mul, Div, Gt> Arith<Lift, Add, Sub, Mul, Div, Gt> where
    F: Copy,
    Lift: Fn(usize) -> F,
    Add: Fn(F, F) -> F,
    Sub: Fn(F, F) -> F,
    Mul: Fn(F, F) -> F,
    Div: Fn(F, F) -> F,
    Gt: Fn(F, F) -> bool,
 {
    /// `s` is the step along an axis of extent `lo..hi` cut into `n` samples:
    /// `(hi - lo) / n`.
    pub open spec fn is_step(&self, lo: F, hi: F, n: usize, s: F) -> bool {
        exists|d: F, m: F| self.subs(hi, lo, d) && self.lifts(n, m) && #[trigger] self.divs(d, m, s)
    }

    /// `v` is the coordinate of sample `k` along an axis: `lo + k * step`.
    pub open spec fn is_coord(&self, lo: F, step: F, k: usize, v: F) -> bool {
        exists|m: F, t: F| self.lifts(k, m) && #[trigger] self.muls(m, step, t) && self.adds(lo, t, v)
    }

    /// `frame` is the frame of `region` at the resolution `width` by `height`.
    pub open spec fn is_frame(
        &self,
        region: Region<F>,
        width: usize,
        height: usize,
        frame: Frame<F>,
    ) -> bool {
        &&& frame.re_min == region.re_min
        &&& frame.im_min == region.im_min
        &&& self.is_step(region.re_min, region.re_max, width, frame.re_step)
        &&& self.is_step(region.im_min, region.im_max, height, frame.im_step)
    }

    /// `c` is the sample point of the pixel in column `x` of row `y`.
    pub open spec fn is_sample(&self, frame: Frame<F>, x: usize, y: usize, c: Point<F>) -> bool {
        &&& self.is_coord(frame.re_min, frame.re_step, x, c.re)
        &&& self.is_coord(frame.im_min, frame.im_step, y, c.im)
    }

    /// `re_ok` and `im_ok` answer whether the region has a positive extent
    /// along the real and along the imaginary axis.
    pub open spec fn is_extent(&self, region: Region<F>, re_ok: bool, im_ok: bool) -> bool {
        &&& self.exceeds(region.re_max, region.re_min, re_ok)
        &&& self.exceeds(region.im_max, region.im_min, im_ok)
    }

    /// `out` is a verdict on the inputs of a kernel call. The resolution is
    /// judged first, then the region, then the iteration cap.
    pub open spec fn is_verdict(
        &self,
        width: usize,
        height: usize,
        max_iter: usize,
        region: Region<F>,
        out: Result<(), KernelError>,
    ) -> bool {
        match out {
            Err(KernelError::InvalidResolution) => width == 0 || height == 0,
            Err(KernelError::InvalidRegion) => {
                &&& width > 0 && height > 0
                &&& self.exceeds(region.re_max, region.re_min, false) || self.is_extent(
                    region,
                    true,
                    false,
                )
            },
            Err(KernelError::InvalidIterationBound) => {
                &&& width > 0 && height > 0
                &&& self.is_extent(region, true, true)
                &&& max_iter == 0
            },
            Ok(()) => {
                &&& width > 0 && height > 0
                &&& self.is_extent(region, true, true)
                &&& max_iter > 0
            },
        }
    }

    /// Judges the inputs of a kernel call before any work is done.
    pub fn validate(&self, width: usize, height: usize, max_iter: usize, region: &Region<F>) -> (out:
        Result<(), KernelError>)
        requires
            self.total(),
        ensures
            self.is_verdict(width, height, max_iter, *region, out),
    {
        if width == 0 || height == 0 {
            return Err(KernelError::InvalidResolution);
        }
        if !(self.gt)(region.re_max, region.re_min) {
            return Err(KernelError::InvalidRegion);
        }
        if !(self.gt)(region.im_max, region.im_min) {
            return Err(KernelError::InvalidRegion);
        }
        if max_iter == 0 {
            return Err(KernelError::InvalidIterationBound);
        }
        Ok(())
    }

    /// The step along one axis: `(hi - lo) / n`.
    fn step(&self, lo: F, hi: F, n: usize) -> (s: F)
        requires
            self.total(),
        ensures
            self.is_step(lo, hi, n, s),
    {
        let d = (self.sub)(hi, lo);
        let m = (self.lift)(n);
        let s = (self.div)(d, m);
        assert(self.divs(d, m, s));
        s
    }

    /// The coordinate of sample `k` along one axis: `lo + k * step`.
    fn coord(&self, lo: F, step: F, k: usize) -> (v: F)
        requires
            self.total(),
        ensures
            self.is_coord(lo, step, k, v),
    {
        let m = (self.lift)(k);
        let t = (self.mul)(m, step);
        let v = (self.add)(lo, t);
        assert(self.muls(m, step, t));
        v
    }

    /// The frame of `region` at the resolution `width` by `height`.
    /// A resolution with a zero side has no frame.
    pub fn frame(&self, region: &Region<F>, width: usize, height: usize) -> (out: Result<
        Frame<F>,
        KernelError,
    >)
        requires
            self.total(),
        ensures
            match out {
                Ok(frame) => width > 0 && height > 0 && self.is_frame(
                    *region,
                    width,
                    height,
                    frame,
                ),
                Err(e) => e == KernelError::InvalidResolution && (width == 0 || height == 0),
            },
    {
        if width == 0 || height == 0 {
            return Err(KernelError::InvalidResolution);
        }
        let re_step = self.step(region.re_min, region.re_max, width);
        let im_step = self.step(region.im_min, region.im_max, height);
        Ok(Frame { re_min: region.re_min, im_min: region.im_min, re_step, im_step })
    }

    /// The sample point of the pixel in column `x` of row `y`.
    pub fn sample(&self, frame: &Frame<F>, x: usize, y: usize) -> (c: Point<F>)
        requires
            self.total(),
        ensures
            self.is_sample(*frame, x, y, c),
    {
        let re = self.coord(frame.re_min, frame.re_step, x);
        let im = self.coord(frame.im_min, frame.im_step, y);
        Point { re, im }
    }
}

} // verus!
