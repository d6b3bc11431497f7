use vstd::prelude::*;

verus! {

/// A point of the complex plane over the scalar type `F`.
#[derive(Clone, Copy)]
pub struct Point<F> {
    pub re: F,
    pub im: F,
}

/// The scalar arithmetic that the kernel runs on, given by its operations.
///
/// The kernel never looks inside a scalar. It only hands scalars to these
/// operations, in a fixed order, and every contract of the kernel is stated
/// over what the operations may return.
pub struct Arith<Lift, Add, Sub, Mul, Div, Gt> {
    /// Converts a pixel index, or a small constant, to a scalar.
    pub lift: Lift,
    /// Sum of two scalars.
    pub add: Add,
    /// The first scalar minus the second.
    pub sub: Sub,
    /// Product of two scalars.
    pub mul: Mul,
    /// The first scalar divided by the second.
    pub div: Div,
    /// Whether the first scalar is strictly greater than the second.
    pub gt: Gt,
}

impl<F, Lift, Add, Sub, Mul, Div, Gt> Arith<Lift, Add, Sub, Mul, Div, Gt> where
    F: Copy,
    Lift: Fn(usize) -> F,
    Add: Fn(F, F) -> F,
    Sub: Fn(F, F) -> F,
    Mul: Fn(F, F) -> F,
    Div: Fn(F, F) -> F,
    Gt: Fn(F, F) -> bool,
 {
    /// `r` is a possible result of converting `n`.
    pub open spec fn lifts(&self, n: usize, r: F) -> bool {
        call_ensures(self.lift, (n,), r)
    }

    /// `r` is a possible result of `a + b`.
    pub open spec fn adds(&self, a: F, b: F, r: F) -> bool {
        call_ensures(self.add, (a, b), r)
    }

    /// `r` is a possible result of `a - b`.
    pub open spec fn subs(&self, a: F, b: F, r: F) -> bool {
        call_ensures(self.sub, (a, b), r)
    }

    /// `r` is a possible result of `a * b`.
    pub open spec fn muls(&self, a: F, b: F, r: F) -> bool {
        call_ensures(self.mul, (a, b), r)
    }

    /// `r` is a possible result of `a / b`.
    pub open spec fn divs(&self, a: F, b: F, r: F) -> bool {
        call_ensures(self.div, (a, b), r)
    }

    /// `t` is a possible answer to `a > b`.
    pub open spec fn exceeds(&self, a: F, b: F, t: bool) -> bool {
        call_ensures(self.gt, (a, b), t)
    }

    /// Every operation may be called on every argument.
    pub open spec fn total(&self) -> bool {
        &&& forall|n: usize| call_requires(self.lift, (n,))
        &&& forall|a: F, b: F| call_requires(self.add, (a, b))
        &&& forall|a: F, b: F| call_requires(self.sub, (a, b))
        &&& forall|a: F, b: F| call_requires(self.mul, (a, b))
        &&& forall|a: F, b: F| call_requires(self.div, (a, b))
        &&& forall|a: F, b: F| call_requires(self.gt, (a, b))
    }

    /// Every operation is a function: the same arguments always give the same result.
    pub open spec fn deterministic(&self) -> bool {
        &&& forall|n: usize, r: F, s: F| self.lifts(n, r) && self.lifts(n, s) ==> r == s
        &&& forall|a: F, b: F, r: F, s: F| self.adds(a, b, r) && self.adds(a, b, s) ==> r == s
        &&& forall|a: F, b: F, r: F, s: F| self.subs(a, b, r) && self.subs(a, b, s) ==> r == s
        &&& forall|a: F, b: F, r: F, s: F| self.muls(a, b, r) && self.muls(a, b, s) ==> r == s
        &&& forall|a: F, b: F, r: F, s: F| self.divs(a, b, r) && self.divs(a, b, s) ==> r == s
        &&& forall|a: F, b: F, t: bool, u: bool|
            self.exceeds(a, b, t) && self.exceeds(a, b, u) ==> t == u
    }
}

} // verus!
