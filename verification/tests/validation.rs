use mandelbrot_rust::arith::Arith;
use mandelbrot_rust::region::{KernelError, Region};
use std::sync::atomic::{AtomicUsize, Ordering};

fn floats() -> Arith<
    impl Fn(usize) -> f64 + Sync,
    impl Fn(f64, f64) -> f64 + Sync,
    impl Fn(f64, f64) -> f64 + Sync,
    impl Fn(f64, f64) -> f64 + Sync,
    impl Fn(f64, f64) -> f64 + Sync,
    impl Fn(f64, f64) -> bool + Sync,
> {
    Arith {
        lift: |n: usize| n as f64,
        add: |a: f64, b: f64| a + b,
        sub: |a: f64, b: f64| a - b,
        mul: |a: f64, b: f64| a * b,
        div: |a: f64, b: f64| a / b,
        gt: |a: f64, b: f64| a > b,
    }
}

fn region(re_min: f64, re_max: f64, im_min: f64, im_max: f64) -> Region<f64> {
    Region { re_min, re_max, im_min, im_max }
}

fn unit() -> Region<f64> {
    region(-2.0, 1.0, -1.0, 1.0)
}

#[test]
fn valid_inputs_are_accepted() {
    assert_eq!(floats().validate(1, 1, 1, &unit()), Ok(()));
    assert_eq!(floats().validate(640, 480, 1000, &unit()), Ok(()));
    assert_eq!(floats().validate(3, 7, 2, &region(0.0, 1e-300, -1e300, 1e300)), Ok(()));
}

#[test]
fn zero_width_is_refused() {
    assert_eq!(floats().validate(0, 4, 10, &unit()), Err(KernelError::InvalidResolution));
    assert!(matches!(
        floats().compute(0, 4, 10, &unit()),
        Err(KernelError::InvalidResolution)
    ));
    assert!(matches!(floats().frame(&unit(), 0, 4), Err(KernelError::InvalidResolution)));
}

#[test]
fn zero_height_is_refused() {
    assert_eq!(floats().validate(4, 0, 10, &unit()), Err(KernelError::InvalidResolution));
    assert_eq!(floats().validate(0, 0, 10, &unit()), Err(KernelError::InvalidResolution));
    assert!(matches!(
        floats().compute(4, 0, 10, &unit()),
        Err(KernelError::InvalidResolution)
    ));
    assert!(matches!(floats().frame(&unit(), 4, 0), Err(KernelError::InvalidResolution)));
}

#[test]
fn region_without_real_extent_is_refused() {
    let empty = region(1.0, 1.0, -1.0, 1.0);
    let reversed = region(1.0, -2.0, -1.0, 1.0);
    assert_eq!(floats().validate(4, 4, 10, &empty), Err(KernelError::InvalidRegion));
    assert_eq!(floats().validate(4, 4, 10, &reversed), Err(KernelError::InvalidRegion));
    assert!(matches!(floats().compute(4, 4, 10, &empty), Err(KernelError::InvalidRegion)));
    assert!(matches!(floats().compute(4, 4, 10, &reversed), Err(KernelError::InvalidRegion)));
}

#[test]
fn region_without_imaginary_extent_is_refused() {
    let empty = region(-2.0, 1.0, 0.5, 0.5);
    let reversed = region(-2.0, 1.0, 1.0, -1.0);
    assert_eq!(floats().validate(4, 4, 10, &empty), Err(KernelError::InvalidRegion));
    assert_eq!(floats().validate(4, 4, 10, &reversed), Err(KernelError::InvalidRegion));
    assert!(matches!(floats().compute(4, 4, 10, &empty), Err(KernelError::InvalidRegion)));
    assert!(matches!(floats().compute(4, 4, 10, &reversed), Err(KernelError::InvalidRegion)));
}

#[test]
fn region_with_an_unordered_bound_is_refused() {
    let nan = f64::NAN;
    assert_eq!(
        floats().validate(4, 4, 10, &region(nan, 1.0, -1.0, 1.0)),
        Err(KernelError::InvalidRegion)
    );
    assert_eq!(
        floats().validate(4, 4, 10, &region(-2.0, nan, -1.0, 1.0)),
        Err(KernelError::InvalidRegion)
    );
    assert_eq!(
        floats().validate(4, 4, 10, &region(-2.0, 1.0, nan, 1.0)),
        Err(KernelError::InvalidRegion)
    );
    assert_eq!(
        floats().validate(4, 4, 10, &region(-2.0, 1.0, -1.0, nan)),
        Err(KernelError::InvalidRegion)
    );
}

#[test]
fn zero_cap_is_refused() {
    assert_eq!(floats().validate(4, 4, 0, &unit()), Err(KernelError::InvalidIterationBound));
    assert!(matches!(
        floats().compute(4, 4, 0, &unit()),
        Err(KernelError::InvalidIterationBound)
    ));
}

#[test]
fn resolution_is_judged_before_region_and_region_before_cap() {
    let bad = region(1.0, 1.0, 1.0, 1.0);
    assert_eq!(floats().validate(0, 0, 0, &bad), Err(KernelError::InvalidResolution));
    assert_eq!(floats().validate(0, 4, 10, &bad), Err(KernelError::InvalidResolution));
    assert_eq!(floats().validate(4, 4, 0, &bad), Err(KernelError::InvalidRegion));
    assert!(matches!(floats().compute(0, 4, 0, &bad), Err(KernelError::InvalidResolution)));
    assert!(matches!(floats().compute(4, 4, 0, &bad), Err(KernelError::InvalidRegion)));
}

#[test]
fn refused_call_does_no_arithmetic_beyond_the_comparisons() {
    let calls = AtomicUsize::new(0);
    let counting = Arith {
        lift: |n: usize| {
            calls.fetch_add(1, Ordering::SeqCst);
            n as f64
        },
        add: |a: f64, b: f64| {
            calls.fetch_add(1, Ordering::SeqCst);
            a + b
        },
        sub: |a: f64, b: f64| {
            calls.fetch_add(1, Ordering::SeqCst);
            a - b
        },
        mul: |a: f64, b: f64| {
            calls.fetch_add(1, Ordering::SeqCst);
            a * b
        },
        div: |a: f64, b: f64| {
            calls.fetch_add(1, Ordering::SeqCst);
            a / b
        },
        gt: |a: f64, b: f64| a > b,
    };
    assert!(counting.compute(0, 4, 10, &unit()).is_err());
    assert!(counting.compute(4, 4, 10, &region(1.0, 1.0, -1.0, 1.0)).is_err());
    assert!(counting.compute(4, 4, 0, &unit()).is_err());
    assert_eq!(calls.load(Ordering::SeqCst), 0);
    assert!(counting.compute(4, 4, 1, &unit()).is_ok());
    assert!(calls.load(Ordering::SeqCst) > 0);
}

#[test]
fn frame_holds_the_lower_corner_and_the_steps() {
    let f = floats().frame(&unit(), 6, 4).unwrap();
    assert_eq!(f.re_min, -2.0);
    assert_eq!(f.im_min, -1.0);
    assert_eq!(f.re_step, 0.5);
    assert_eq!(f.im_step, 0.5);
    let g = floats().frame(&region(0.0, 1.0, -3.0, 3.0), 3, 7).unwrap();
    assert_eq!(g.re_step.to_bits(), (1.0f64 / 3.0).to_bits());
    assert_eq!(g.im_step.to_bits(), (6.0f64 / 7.0).to_bits());
}

#[test]
fn sample_is_the_corner_plus_index_times_step() {
    let a = floats();
    let f = a.frame(&unit(), 6, 4).unwrap();
    let c = a.sample(&f, 0, 0);
    assert_eq!((c.re, c.im), (-2.0, -1.0));
    let c = a.sample(&f, 3, 1);
    assert_eq!((c.re, c.im), (-0.5, -0.5));
    let c = a.sample(&f, 5, 3);
    assert_eq!((c.re, c.im), (0.5, 0.5));
    let g = a.frame(&region(0.0, 1.0, -3.0, 3.0), 3, 7).unwrap();
    let c = a.sample(&g, 2, 5);
    assert_eq!(c.re.to_bits(), (0.0f64 + 2.0 * (1.0 / 3.0)).to_bits());
    assert_eq!(c.im.to_bits(), (-3.0f64 + 5.0 * (6.0 / 7.0)).to_bits());
}

#[test]
fn last_sample_stays_below_the_upper_edge() {
    let a = floats();
    let r = unit();
    for (width, height) in [(1usize, 1usize), (2, 3), (6, 4), (100, 37)] {
        let f = a.frame(&r, width, height).unwrap();
        let c = a.sample(&f, width - 1, height - 1);
        assert!(c.re < r.re_max);
        assert!(c.im < r.im_max);
    }
}
