use vstd::prelude::*;
use crate::arith::{Arith, Point};
use crate::region::{Frame, KernelError, Region};

verus! {

impl<F, Lift, Add, Sub, Mul, Div, Gt> Arith<Lift, Add, Sub, Mul, Div, Gt> where
    F: Copy,
    Lift: Fn(usize) -> F,
    Add: Fn(F, F) -> F,
    Sub: Fn(F, F) -> F,
    Mul: Fn(F, F) -> F,
    Div: Fn(F, F) -> F,
    Gt: Fn(F, F) -> bool,
 {
    /// Over a deterministic arithmetic a point has one squared magnitude.
    pub proof fn lemma_norm_unique(&self, z: Point<F>, n1: F, n2: F)
        requires
            self.deterministic(),
            self.is_norm(z, n1),
            self.is_norm(z, n2),
        ensures
            n1 == n2,
    {
        let (a1, b1) = choose|a: F, b: F|
            self.muls(z.re, z.re, a) && self.muls(z.im, z.im, b) && #[trigger] self.adds(a, b, n1);
        let (a2, b2) = choose|a: F, b: F|
            self.muls(z.re, z.re, a) && self.muls(z.im, z.im, b) && #[trigger] self.adds(a, b, n2);
        assert(a1 == a2);
        assert(b1 == b2);
    }

    /// Over a deterministic arithmetic the escape test has one answer.
    pub proof fn lemma_escaped_unique(&self, z: Point<F>, t1: bool, t2: bool)
        requires
            self.deterministic(),
            self.is_escaped(z, t1),
            self.is_escaped(z, t2),
        ensures
            t1 == t2,
    {
        let (n1, f1) = choose|n: F, four: F|
            self.is_norm(z, n) && self.lifts(4, four) && #[trigger] self.exceeds(n, four, t1);
        let (n2, f2) = choose|n: F, four: F|
            self.is_norm(z, n) && self.lifts(4, four) && #[trigger] self.exceeds(n, four, t2);
        self.lemma_norm_unique(z, n1, n2);
        assert(f1 == f2);
    }

    /// Over a deterministic arithmetic a step of the recurrence has one result.
    pub proof fn lemma_next_unique(&self, z: Point<F>, c: Point<F>, w1: Point<F>, w2: Point<F>)
        requires
            self.deterministic(),
            self.is_next(z, c, w1),
            self.is_next(z, c, w2),
        ensures
            w1 == w2,
    {
        let (a1, b1, d1) = choose|a: F, b: F, d: F|
            self.muls(z.re, z.re, a) && self.muls(z.im, z.im, b) && #[trigger] self.subs(a, b, d)
                && self.adds(d, c.re, w1.re);
        let (a2, b2, d2) = choose|a: F, b: F, d: F|
            self.muls(z.re, z.re, a) && self.muls(z.im, z.im, b) && #[trigger] self.subs(a, b, d)
                && self.adds(d, c.re, w2.re);
        assert(a1 == a2);
        assert(b1 == b2);
        assert(d1 == d2);
        assert(w1.re == w2.re);
        let (two1, t1, u1) = choose|two: F, t: F, u: F|
            self.lifts(2, two) && #[trigger] self.muls(two, z.re, t) && #[trigger] self.muls(
                t,
                z.im,
                u,
            ) && self.adds(u, c.im, w1.im);
        let (two2, t2, u2) = choose|two: F, t: F, u: F|
            self.lifts(2, two) && #[trigger] self.muls(two, z.re, t) && #[trigger] self.muls(
                t,
                z.im,
                u,
            ) && self.adds(u, c.im, w2.im);
        assert(two1 == two2);
        assert(t1 == t2);
        assert(u1 == u2);
        assert(w1.im == w2.im);
    }

    /// Over a deterministic arithmetic two orbits of one sample point agree
    /// on every point that both list.
    pub proof fn lemma_orbit_unique(
        &self,
        c: Point<F>,
        zs1: Seq<Point<F>>,
        zs2: Seq<Point<F>>,
        k: int,
    )
        requires
            self.deterministic(),
            self.is_orbit(c, zs1),
            self.is_orbit(c, zs2),
            0 <= k < zs1.len(),
            k < zs2.len(),
        ensures
            zs1[k] == zs2[k],
        decreases k,
    {
        if k == 0 {
            assert(zs1[0].re == zs2[0].re);
        } else {
            self.lemma_orbit_unique(c, zs1, zs2, k - 1);
            assert(self.is_next(zs1[k - 1], c, zs1[k - 1 + 1]));
            assert(self.is_next(zs2[k - 1], c, zs2[k - 1 + 1]));
            self.lemma_next_unique(zs1[k - 1], c, zs1[k], zs2[k]);
        }
    }

    /// Raising the cap never lowers the escape time of a sample point, and
    /// leaves it as it is once the point has escaped below the smaller cap.
    pub proof fn lemma_escape_time_monotone(
        &self,
        c: Point<F>,
        low: nat,
        high: nat,
        n1: nat,
        n2: nat,
    )
        requires
            self.deterministic(),
            low <= high,
            self.escapes_after(c, low, n1),
            self.escapes_after(c, high, n2),
        ensures
            n1 <= n2,
            n1 < low ==> n2 == n1,
    {
        let zs1 = choose|zs: Seq<Point<F>>| #[trigger] self.witnesses(c, low, n1, zs);
        let zs2 = choose|zs: Seq<Point<F>>| #[trigger] self.witnesses(c, high, n2, zs);
        if n2 < n1 {
            let k = n2 as int;
            self.lemma_orbit_unique(c, zs1, zs2, k);
            assert(self.is_escaped(zs1[k], false));
            assert(self.is_escaped(zs2[k], true));
            self.lemma_escaped_unique(zs1[k], false, true);
        }
        if n1 < low && n1 < n2 {
            let k = n1 as int;
            self.lemma_orbit_unique(c, zs1, zs2, k);
            assert(self.is_escaped(zs1[k], true));
            assert(self.is_escaped(zs2[k], false));
            self.lemma_escaped_unique(zs1[k], true, false);
        }
    }

    /// Over a deterministic arithmetic a sample point has one escape time
    /// under a given cap.
    pub proof fn lemma_escape_time_unique(&self, c: Point<F>, cap: nat, n1: nat, n2: nat)
        requires
            self.deterministic(),
            self.escapes_after(c, cap, n1),
            self.escapes_after(c, cap, n2),
        ensures
            n1 == n2,
    {
        self.lemma_escape_time_monotone(c, cap, cap, n1, n2);
        self.lemma_escape_time_monotone(c, cap, cap, n2, n1);
    }

    /// Over a deterministic arithmetic an axis has one step.
    pub proof fn lemma_step_unique(&self, lo: F, hi: F, n: usize, s1: F, s2: F)
        requires
            self.deterministic(),
            self.is_step(lo, hi, n, s1),
            self.is_step(lo, hi, n, s2),
        ensures
            s1 == s2,
    {
        let (d1, m1) = choose|d: F, m: F|
            self.subs(hi, lo, d) && self.lifts(n, m) && #[trigger] self.divs(d, m, s1);
        let (d2, m2) = choose|d: F, m: F|
            self.subs(hi, lo, d) && self.lifts(n, m) && #[trigger] self.divs(d, m, s2);
        assert(d1 == d2);
        assert(m1 == m2);
    }

    /// Over a deterministic arithmetic a sample has one coordinate along an axis.
    pub proof fn lemma_coord_unique(&self, lo: F, step: F, k: usize, v1: F, v2: F)
        requires
            self.deterministic(),
            self.is_coord(lo, step, k, v1),
            self.is_coord(lo, step, k, v2),
        ensures
            v1 == v2,
    {
        let (m1, t1) = choose|m: F, t: F|
            self.lifts(k, m) && #[trigger] self.muls(m, step, t) && self.adds(lo, t, v1);
        let (m2, t2) = choose|m: F, t: F|
            self.lifts(k, m) && #[trigger] self.muls(m, step, t) && self.adds(lo, t, v2);
        assert(m1 == m2);
        assert(t1 == t2);
    }

    /// Over a deterministic arithmetic a region has one frame at a given resolution.
    pub proof fn lemma_frame_unique(
        &self,
        region: Region<F>,
        width: usize,
        height: usize,
        f1: Frame<F>,
        f2: Frame<F>,
    )
        requires
            self.deterministic(),
            self.is_frame(region, width, height, f1),
            self.is_frame(region, width, height, f2),
        ensures
            f1 == f2,
    {
        self.lemma_step_unique(region.re_min, region.re_max, width, f1.re_step, f2.re_step);
        self.lemma_step_unique(region.im_min, region.im_max, height, f1.im_step, f2.im_step);
    }

    /// Over a deterministic arithmetic a pixel has one count.
    pub proof fn lemma_pixel_unique(
        &self,
        frame: Frame<F>,
        x: usize,
        y: usize,
        max_iter: usize,
        v1: i32,
        v2: i32,
    )
        requires
            self.deterministic(),
            self.is_pixel(frame, x, y, max_iter, v1),
            self.is_pixel(frame, x, y, max_iter, v2),
        ensures
            v1 == v2,
    {
        let c1 = choose|c: Point<F>| #[trigger]
            self.is_sample(frame, x, y, c) && self.escapes_after(c, max_iter as nat, v1 as nat);
        let c2 = choose|c: Point<F>| #[trigger]
            self.is_sample(frame, x, y, c) && self.escapes_after(c, max_iter as nat, v2 as nat);
        self.lemma_coord_unique(frame.re_min, frame.re_step, x, c1.re, c2.re);
        self.lemma_coord_unique(frame.im_min, frame.im_step, y, c1.im, c2.im);
        self.lemma_escape_time_unique(c1, max_iter as nat, v1 as nat, v2 as nat);
    }

    /// Raising the cap never lowers the count of a pixel, and leaves it as it
    /// is once the pixel has escaped below the smaller cap.
    pub proof fn lemma_pixel_monotone(
        &self,
        frame: Frame<F>,
        x: usize,
        y: usize,
        low: usize,
        high: usize,
        v1: i32,
        v2: i32,
    )
        requires
            self.deterministic(),
            low <= high,
            self.is_pixel(frame, x, y, low, v1),
            self.is_pixel(frame, x, y, high, v2),
        ensures
            v1 <= v2,
            v1 < low ==> v2 == v1,
    {
        let c1 = choose|c: Point<F>| #[trigger]
            self.is_sample(frame, x, y, c) && self.escapes_after(c, low as nat, v1 as nat);
        let c2 = choose|c: Point<F>| #[trigger]
            self.is_sample(frame, x, y, c) && self.escapes_after(c, high as nat, v2 as nat);
        self.lemma_coord_unique(frame.re_min, frame.re_step, x, c1.re, c2.re);
        self.lemma_coord_unique(frame.im_min, frame.im_step, y, c1.im, c2.im);
        self.lemma_escape_time_monotone(c1, low as nat, high as nat, v1 as nat, v2 as nat);
    }

    /// Determinism of the kernel: over a deterministic arithmetic the inputs
    /// of a call leave one grid. Whatever order the row tasks ran in, two
    /// renderings of one region at one resolution under one cap are equal,
    /// cell for cell.
    pub proof fn lemma_rendering_unique(
        &self,
        region: Region<F>,
        width: usize,
        height: usize,
        max_iter: usize,
        f1: Frame<F>,
        rows1: Seq<Seq<i32>>,
        f2: Frame<F>,
        rows2: Seq<Seq<i32>>,
    )
        requires
            self.deterministic(),
            self.is_frame(region, width, height, f1),
            self.renders(f1, width, height, max_iter, rows1),
            self.is_frame(region, width, height, f2),
            self.renders(f2, width, height, max_iter, rows2),
        ensures
            rows1 == rows2,
    {
        self.lemma_frame_unique(region, width, height, f1, f2);
        assert forall|y: int| 0 <= y < height implies rows1[y] == rows2[y] by {
            let r1 = rows1[y];
            let r2 = rows2[y];
            assert(r1.len() == width && r2.len() == width);
            assert forall|x: int| 0 <= x < width implies r1[x] == r2[x] by {
                assert(self.is_pixel(f1, x as usize, y as usize, max_iter, r1[x]));
                assert(self.is_pixel(f1, x as usize, y as usize, max_iter, r2[x]));
                self.lemma_pixel_unique(f1, x as usize, y as usize, max_iter, r1[x], r2[x]);
            }
            assert(r1 =~= r2);
        }
        assert(rows1 =~= rows2);
    }

    /// Over a deterministic arithmetic the inputs of a call are judged in one
    /// way only: each error comes on the inputs that its rule names and on no
    /// others, an earlier rule going first.
    pub proof fn lemma_verdict_unique(
        &self,
        width: usize,
        height: usize,
        max_iter: usize,
        region: Region<F>,
        out1: Result<(), KernelError>,
        out2: Result<(), KernelError>,
    )
        requires
            self.deterministic(),
            self.is_verdict(width, height, max_iter, region, out1),
            self.is_verdict(width, height, max_iter, region, out2),
        ensures
            out1 == out2,
    {
        assert(!(self.exceeds(region.re_max, region.re_min, true) && self.exceeds(
            region.re_max,
            region.re_min,
            false,
        )));
        assert(!(self.exceeds(region.im_max, region.im_min, true) && self.exceeds(
            region.im_max,
            region.im_min,
            false,
        )));
        match (out1, out2) {
            (Ok(u1), Ok(u2)) => {
                assert(u1 == u2);
            },
            _ => {},
        }
    }
}

} // verus!
