use vstd::prelude::*;
use crate::arith::{Arith, Point};

verus! {

impl<F, Lift, Add, Sub, Mul, Div, Gt> Arith<Lift, Add, Sub, Mul, Div, Gt> where
    F: Copy,
    Lift: Fn(usize) -> F,
    Add: Fn(F, F) -> F,
    Sub: Fn(F, F) -> F,
    Mul: Fn(F, F) -> F,
    Div: Fn(F, F) -> F,
    Gt: Fn(F, F) -> bool,
 {
    /// `n` is the squared magnitude of `z`: `z.re * z.re + z.im * z.im`.
    pub open spec fn is_norm(&self, z: Point<F>, n: F) -> bool {
        exists|a: F, b: F|
            self.muls(z.re, z.re, a) && self.muls(z.im, z.im, b) && #[trigger] self.adds(a, b, n)
    }

    /// `t` answers whether `z` has escaped: whether its squared magnitude is
    /// strictly greater than four.
    pub open spec fn is_escaped(&self, z: Point<F>, t: bool) -> bool {
        exists|n: F, four: F|
            self.is_norm(z, n) && self.lifts(4, four) && #[trigger] self.exceeds(n, four, t)
    }

    /// `w` is the real part of `z * z + c`: `(z.re * z.re - z.im * z.im) + c.re`.
    pub open spec fn is_next_re(&self, z: Point<F>, c: Point<F>, w: F) -> bool {
        exists|a: F, b: F, d: F|
            self.muls(z.re, z.re, a) && self.muls(z.im, z.im, b) && #[trigger] self.subs(a, b, d)
                && self.adds(d, c.re, w)
    }

    /// `w` is the imaginary part of `z * z + c`: `((2 * z.re) * z.im) + c.im`.
    pub open spec fn is_next_im(&self, z: Point<F>, c: Point<F>, w: F) -> bool {
        exists|two: F, t: F, u: F|
            self.lifts(2, two) && #[trigger] self.muls(two, z.re, t) && #[trigger] self.muls(
                t,
                z.im,
                u,
            ) && self.adds(u, c.im, w)
    }

    /// `w` is `z * z + c`, both parts taken from the parts of `z`.
    pub open spec fn is_next(&self, z: Point<F>, c: Point<F>, w: Point<F>) -> bool {
        self.is_next_re(z, c, w.re) && self.is_next_im(z, c, w.im)
    }

    /// `z` is the start of every orbit: zero.
    pub open spec fn is_origin(&self, z: Point<F>) -> bool {
        self.lifts(0, z.re) && z.im == z.re
    }

    /// `zs` is the orbit of the sample point `c`, as far as it is listed:
    /// it starts at zero, and each point follows from the one before.
    pub open spec fn is_orbit(&self, c: Point<F>, zs: Seq<Point<F>>) -> bool {
        &&& zs.len() >= 1
        &&& self.is_origin(zs[0])
        &&& forall|k: int| 0 <= k < zs.len() - 1 ==> self.is_next(zs[k], c, #[trigger] zs[k + 1])
    }

    /// `zs` is an orbit of `c` that shows the escape time `n` under the cap `cap`:
    /// no point before the `n`-th has escaped, and the `n`-th has, unless `n` is the cap.
    pub open spec fn witnesses(&self, c: Point<F>, cap: nat, n: nat, zs: Seq<Point<F>>) -> bool {
        &&& self.is_orbit(c, zs)
        &&& zs.len() == n + 1
        &&& forall|k: int| 0 <= k < n ==> self.is_escaped(#[trigger] zs[k], false)
        &&& n < cap ==> self.is_escaped(zs[n as int], true)
    }

    /// `n` is an escape time of `c` under the cap `cap`: the number of steps of
    /// `z <- z * z + c` from zero after which `z` has escaped for the first time,
    /// or `cap` if it has not escaped before.
    pub open spec fn escapes_after(&self, c: Point<F>, cap: nat, n: nat) -> bool {
        n <= cap && exists|zs: Seq<Point<F>>| #[trigger] self.witnesses(c, cap, n, zs)
    }

    /// The squared magnitude of `z`.
    pub fn norm(&self, z: Point<F>) -> (n: F)
        requires
            self.total(),
        ensures
            self.is_norm(z, n),
    {
        let a = (self.mul)(z.re, z.re);
        let b = (self.mul)(z.im, z.im);
        let n = (self.add)(a, b);
        assert(self.adds(a, b, n));
        n
    }

    /// Whether `z` has escaped: whether its squared magnitude is strictly greater than four.
    pub fn escaped(&self, z: Point<F>) -> (t: bool)
        requires
            self.total(),
        ensures
            self.is_escaped(z, t),
    {
        let n = self.norm(z);
        let four = (self.lift)(4);
        let t = (self.gt)(n, four);
        assert(self.exceeds(n, four, t));
        t
    }

    /// One step of the recurrence: `z * z + c`. Both parts of the result are
    /// computed from the parts of `z` as they were before the step.
    pub fn next(&self, z: Point<F>, c: Point<F>) -> (w: Point<F>)
        requires
            self.total(),
        ensures
            self.is_next(z, c, w),
    {
        let a = (self.mul)(z.re, z.re);
        let b = (self.mul)(z.im, z.im);
        let two = (self.lift)(2);
        let t = (self.mul)(two, z.re);
        let u = (self.mul)(t, z.im);
        let im = (self.add)(u, c.im);
        let d = (self.sub)(a, b);
        let re = (self.add)(d, c.re);
        assert(self.subs(a, b, d));
        assert(self.muls(two, z.re, t) && self.muls(t, z.im, u));
        Point { re, im }
    }

    /// Zero, where every orbit starts.
    pub fn origin(&self) -> (z: Point<F>)
        requires
            self.total(),
        ensures
            self.is_origin(z),
    {
        let zero = (self.lift)(0);
        Point { re: zero, im: zero }
    }

    /// The escape time of the sample point `c` under the cap `max_iter`.
    pub fn escape_time(&self, c: Point<F>, max_iter: usize) -> (count: usize)
        requires
            self.total(),
        ensures
            self.escapes_after(c, max_iter as nat, count as nat),
    {
        let mut z = self.origin();
        let mut count: usize = 0;
        let ghost mut zs: Seq<Point<F>> = seq![z];
        let mut stop = false;
        while count < max_iter && !stop
            invariant
                self.total(),
                count <= max_iter,
                self.is_orbit(c, zs),
                zs.len() == count + 1,
                zs[count as int] == z,
                forall|k: int| 0 <= k < count ==> self.is_escaped(#[trigger] zs[k], false),
                stop ==> self.is_escaped(z, true),
            decreases max_iter - count + (if stop { 0int } else { 1int }),
        {
            if self.escaped(z) {
                stop = true;
            } else {
                let w = self.next(z, c);
                proof {
                    let ghost old_zs = zs;
                    zs = zs.push(w);
                    assert(forall|k: int| 0 <= k < old_zs.len() ==> zs[k] == old_zs[k]);
                    assert forall|k: int| 0 <= k < zs.len() - 1 implies self.is_next(
                        zs[k],
                        c,
                        #[trigger] zs[k + 1],
                    ) by {
                        if k < old_zs.len() - 1 {
                            assert(self.is_next(old_zs[k], c, old_zs[k + 1]));
                        }
                    }
                }
                z = w;
                count = count + 1;
            }
        }
        assert(self.witnesses(c, max_iter as nat, count as nat, zs));
        count
    }
}

} // verus!
