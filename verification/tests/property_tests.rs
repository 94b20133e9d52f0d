use splinterpol::coefficients::{calc_b, calc_d};
use splinterpol::plot_coeffs_into;
use splinterpol::splinterpol;
use splinterpol::system::{calc_diagonal, calc_r, calc_subdiagonal};
use splinterpol::thomas_algorithm::{thomas_algorithm, thomas_algorithm_symmetric};
use splinterpol::Error;

fn bits_of(v: &[f32]) -> Vec<u32> {
    v.iter().map(|x| x.to_bits()).collect()
}

fn floats_of(v: &[u32]) -> Vec<f32> {
    v.iter().map(|x| f32::from_bits(*x)).collect()
}

fn coeff_floats_of(v: &[(u32, u32, u32, u32)]) -> Vec<(f32, f32, f32, f32)> {
    v.iter()
        .map(|t| {
            (
                f32::from_bits(t.0),
                f32::from_bits(t.1),
                f32::from_bits(t.2),
                f32::from_bits(t.3),
            )
        })
        .collect()
}

const KNOTS: [f32; 16] = [
    0.5, 1.0, 2.0, 3.0, 4.5, 5.0, 6.0, 7.0, 8.0, 9.0, 10.0, 11.5, 12.0, 13.0, 14.0, 15.0,
];

const VALUES: [f32; 16] = [
    0.0, 0.0, 1.0, 2.0, 4.0, 7.0, 9.0, 10.0, 8.0, 6.0, 3.0, 2.0, 2.0, 1.0, 1.0, 0.0,
];

fn fit_reference() -> Vec<(f32, f32, f32, f32)> {
    let mut coeffs = vec![(0u32, 0u32, 0u32, 0u32); 15];
    splinterpol::<16>(&bits_of(&KNOTS), &bits_of(&VALUES), &mut coeffs).unwrap();
    coeff_floats_of(&coeffs)
}

// Interpolation: the assembled cubic of interval i starts at ys[i] exactly.
#[test]
fn interpolation_at_left_knots() {
    let coeffs = fit_reference();
    for (i, &(a, _, _, _)) in coeffs.iter().enumerate() {
        assert_eq!(a.to_bits(), VALUES[i].to_bits());
        // Evaluating at local offset 0 gives the constant coefficient back.
        let x = 0.0f32;
        let v = coeffs[i].0 + coeffs[i].1 * x + coeffs[i].2 * (x * x) + coeffs[i].3 * (x * x * x);
        assert_eq!(v, VALUES[i]);
    }
}

// Continuity: at each interior knot the value, first derivative and second
// derivative of the two adjacent cubics agree up to tolerance.
#[test]
fn continuity_at_interior_knots() {
    let coeffs = fit_reference();
    for i in 1..15 {
        let h = (KNOTS[i] - KNOTS[i - 1]) as f64;
        let (a, b, c, d) = coeffs[i - 1];
        let (a2, b2, c2, _) = coeffs[i];
        let (a, b, c, d) = (a as f64, b as f64, c as f64, d as f64);
        let val = a + b * h + c * h * h + d * h * h * h;
        let der = b + 2.0 * c * h + 3.0 * d * h * h;
        let sec = 2.0 * c + 6.0 * d * h;
        assert!((val - a2 as f64).abs() < 1e-4);
        assert!((der - b2 as f64).abs() < 1e-4);
        assert!((sec - 2.0 * c2 as f64).abs() < 1e-4);
    }
}

// Natural boundary: the second derivative is zero at the first knot
// exactly, and at the last knot up to tolerance.
#[test]
fn natural_boundary_ends() {
    let coeffs = fit_reference();
    assert_eq!(coeffs[0].2.to_bits(), 0u32);
    let (_, _, c, d) = coeffs[14];
    let h = (KNOTS[15] - KNOTS[14]) as f64;
    let sec = 2.0 * c as f64 + 6.0 * d as f64 * h;
    assert!(sec.abs() < 1e-5);
}

// Solver correctness: a diagonally dominant system built from a known
// solution is solved back to that solution.
#[test]
fn thomas_reconstructs_known_solution() {
    let known = [1.0f32, -2.0, 3.0, 0.5, -1.5, 2.5];
    let main_v = [5.0f32, 6.0, 5.0, 7.0, 6.0, 5.0];
    let lower_v = [1.0f32, 2.0, 1.0, 1.5, 2.0];
    let upper_v = [2.0f32, 1.0, 1.5, 1.0, 1.0];
    let n = 6;
    let mut r_v = [0f32; 6];
    for i in 0..n {
        let mut acc = main_v[i] * known[i];
        if i > 0 {
            acc += lower_v[i - 1] * known[i - 1];
        }
        if i + 1 < n {
            acc += upper_v[i] * known[i + 1];
        }
        r_v[i] = acc;
    }
    let mut main = bits_of(&main_v);
    let mut r = bits_of(&r_v);
    let mut x = vec![0u32; 6];
    thomas_algorithm(&bits_of(&lower_v), &mut main, &bits_of(&upper_v), &mut r, &mut x).unwrap();
    for (got, want) in floats_of(&x).iter().zip(&known) {
        assert!((got - want).abs() < 1e-5);
    }
}

// Solver correctness, the other direction: multiplying the system matrix
// by the solver's output reproduces the right-hand side.
#[test]
fn thomas_residual_is_small() {
    let main_v = [
        3.0f32, 4.0, 5.0, 4.0, 3.0, 4.0, 4.0, 4.0, 4.0, 5.0, 4.0, 3.0, 4.0, 4.0,
    ];
    let sub_v = [
        1.0f32, 1.0, 1.5, 0.5, 1.0, 1.0, 1.0, 1.0, 1.0, 1.5, 0.5, 1.0, 1.0,
    ];
    let r_v = [
        3f32, 0.0, 1.0, 14.0, -12.0, -3.0, -9.0, 0.0, -3.0, 7.0, 2.0, -3.0, 3.0, -3.0,
    ];
    let n = 14;
    let mut main = bits_of(&main_v);
    let mut r = bits_of(&r_v);
    let mut x = vec![0u32; 14];
    thomas_algorithm_symmetric(&bits_of(&sub_v), &mut main, &mut r, &mut x).unwrap();
    let x = floats_of(&x);
    for i in 0..n {
        let mut acc = main_v[i] as f64 * x[i] as f64;
        if i > 0 {
            acc += sub_v[i - 1] as f64 * x[i - 1] as f64;
        }
        if i + 1 < n {
            acc += sub_v[i] as f64 * x[i + 1] as f64;
        }
        assert!((acc - r_v[i] as f64).abs() < 1e-4);
    }
}

// Length validation: every component rejects mismatched lengths with the
// length error and leaves its outputs untouched.
#[test]
fn length_mismatch_builder() {
    let xs = bits_of(&KNOTS);
    let short = bits_of(&KNOTS[..15]);
    let sentinel = vec![0xdead_beefu32; 14];

    let mut out = sentinel.clone();
    assert_eq!(calc_diagonal::<16>(&short, &mut out), Err(Error::InvalidSliceLength));
    assert_eq!(out, sentinel);
    let mut out = vec![0xdead_beefu32; 13];
    assert_eq!(calc_diagonal::<16>(&xs, &mut out), Err(Error::InvalidSliceLength));
    assert_eq!(out, vec![0xdead_beefu32; 13]);

    let mut out = vec![0xdead_beefu32; 12];
    assert_eq!(calc_subdiagonal(&xs, &mut out), Err(Error::InvalidSliceLength));
    assert_eq!(out, vec![0xdead_beefu32; 12]);

    let ys = bits_of(&VALUES);
    let mut out = sentinel.clone();
    assert_eq!(calc_r::<16>(&short, &ys, &mut out), Err(Error::InvalidSliceLength));
    assert_eq!(out, sentinel);
    let mut out = sentinel.clone();
    assert_eq!(
        calc_r::<16>(&xs, &bits_of(&VALUES[..15]), &mut out),
        Err(Error::InvalidSliceLength)
    );
    assert_eq!(out, sentinel);
}

#[test]
fn length_mismatch_solver() {
    let main0 = vec![4.0f32.to_bits(); 6];
    let off = vec![1.0f32.to_bits(); 5];
    let rhs0 = vec![1.0f32.to_bits(); 6];

    let mut main = main0.clone();
    let mut r = rhs0.clone();
    let mut x = vec![0xdead_beefu32; 6];
    let bad_off = vec![1.0f32.to_bits(); 4];
    assert_eq!(
        thomas_algorithm(&bad_off, &mut main, &off, &mut r, &mut x),
        Err(Error::InvalidSliceLength)
    );
    assert_eq!(main, main0);
    assert_eq!(r, rhs0);
    assert_eq!(x, vec![0xdead_beefu32; 6]);

    let mut main = main0.clone();
    let mut r = rhs0.clone();
    let mut x = vec![0xdead_beefu32; 5];
    assert_eq!(
        thomas_algorithm_symmetric(&off, &mut main, &mut r, &mut x),
        Err(Error::InvalidSliceLength)
    );
    assert_eq!(main, main0);
    assert_eq!(r, rhs0);
    assert_eq!(x, vec![0xdead_beefu32; 5]);
}

#[test]
fn length_mismatch_assembler() {
    let xs = bits_of(&KNOTS);
    let ys = bits_of(&VALUES);
    let cs = vec![0u32; 16];
    let sentinel = vec![0xdead_beefu32; 15];

    let mut out = vec![0xdead_beefu32; 14];
    assert_eq!(calc_b::<16>(&xs, &ys, &cs, &mut out), Err(Error::InvalidSliceLength));
    assert_eq!(out, vec![0xdead_beefu32; 14]);
    let mut out = sentinel.clone();
    assert_eq!(
        calc_b::<16>(&xs, &bits_of(&VALUES[..15]), &cs, &mut out),
        Err(Error::InvalidSliceLength)
    );
    assert_eq!(out, sentinel);

    let mut out = sentinel.clone();
    assert_eq!(calc_d::<16>(&xs, &vec![0u32; 15], &mut out), Err(Error::InvalidSliceLength));
    assert_eq!(out, sentinel);
}

#[test]
fn length_mismatch_fit_and_sampler() {
    let xs = bits_of(&KNOTS);
    let ys = bits_of(&VALUES);
    let sentinel = vec![(1u32, 2u32, 3u32, 4u32); 15];

    let mut coeffs = sentinel.clone();
    assert_eq!(
        splinterpol::<16>(&bits_of(&KNOTS[..15]), &ys, &mut coeffs),
        Err(Error::InvalidSliceLength)
    );
    assert_eq!(coeffs, sentinel);
    let mut coeffs = vec![(1u32, 2u32, 3u32, 4u32); 14];
    assert_eq!(splinterpol::<16>(&xs, &ys, &mut coeffs), Err(Error::InvalidSliceLength));
    assert_eq!(coeffs, vec![(1u32, 2u32, 3u32, 4u32); 14]);

    let mut buffer = vec![0xdead_beefu32; 10];
    let coeffs = vec![(0u32, 0u32, 0u32, 0u32); 14];
    assert_eq!(plot_coeffs_into(&mut buffer, &coeffs, &xs), Err(()));
    assert_eq!(buffer, vec![0xdead_beefu32; 10]);
}

// Sampler coverage: the fit over the sixteen reference knots sampled into
// a 100-slot buffer starts at ys[0] exactly, ends near ys[15], and moves
// smoothly in between.
#[test]
fn sampler_coverage() {
    let mut coeffs = vec![(0u32, 0u32, 0u32, 0u32); 15];
    splinterpol::<16>(&bits_of(&KNOTS), &bits_of(&VALUES), &mut coeffs).unwrap();
    let mut buffer = vec![f32::NAN.to_bits(); 100];
    plot_coeffs_into(&mut buffer, &coeffs, &bits_of(&KNOTS)).unwrap();
    let vals = floats_of(&buffer);
    let written: Vec<f32> = vals.iter().copied().filter(|v| !v.is_nan()).collect();
    assert!(written.len() >= 99);
    assert_eq!(vals[0].to_bits(), 0.0f32.to_bits());
    assert!(written[written.len() - 1].abs() < 0.25);
    for w in written.windows(2) {
        assert!((w[1] - w[0]).abs() < 1.5);
    }
    for v in &written {
        assert!(*v > -0.5 && *v < 10.5);
    }
}

// Minimum size: six knots (an interior system of four unknowns) is the
// smallest accepted fit; five or fewer fail with the length error.
#[test]
fn minimum_size_boundary() {
    let xs6 = [0.0f32, 1.0, 2.0, 3.0, 4.0, 5.0];
    let ys6 = [0.0f32, 1.0, 0.0, 1.0, 0.0, 1.0];
    let mut coeffs = vec![(0u32, 0u32, 0u32, 0u32); 5];
    assert!(splinterpol::<6>(&bits_of(&xs6), &bits_of(&ys6), &mut coeffs).is_ok());

    let mut coeffs = vec![(0u32, 0u32, 0u32, 0u32); 4];
    assert_eq!(
        splinterpol::<5>(&bits_of(&xs6[..5]), &bits_of(&ys6[..5]), &mut coeffs),
        Err(Error::InvalidSliceLength)
    );

    // The solver itself draws the same line at four unknowns.
    let mut main = vec![4.0f32.to_bits(); 4];
    let off = vec![1.0f32.to_bits(); 3];
    let mut r = vec![1.0f32.to_bits(); 4];
    let mut x = vec![0u32; 4];
    assert!(thomas_algorithm_symmetric(&off, &mut main, &mut r, &mut x).is_ok());
    let mut main = vec![4.0f32.to_bits(); 3];
    let off = vec![1.0f32.to_bits(); 2];
    let mut r = vec![1.0f32.to_bits(); 3];
    let mut x = vec![0u32; 3];
    assert_eq!(
        thomas_algorithm_symmetric(&off, &mut main, &mut r, &mut x),
        Err(Error::InvalidSliceLength)
    );
}

// The sampler's arithmetic, written out on hardware floats step by step,
// agrees bit for bit with the library's output.
#[test]
fn sampler_matches_hardware_evaluation() {
    let mut coeffs = vec![(0u32, 0u32, 0u32, 0u32); 15];
    splinterpol::<16>(&bits_of(&KNOTS), &bits_of(&VALUES), &mut coeffs).unwrap();
    let coeffs_f = coeff_floats_of(&coeffs);

    let mut expected = [0.25f32; 100];
    let x_range = KNOTS[KNOTS.len() - 1] - KNOTS[0];
    let step_size = x_range as f64 / expected.len() as f64;
    let mut current_index: usize = 0;
    for i in 0..coeffs_f.len() {
        let range = KNOTS[i + 1] - KNOTS[i];
        let ratio = range / x_range;
        let r = expected.len() as f32 * ratio;
        let buffer_ratio = if r - ((r as u32) as f32) < 0.5 {
            r as u32
        } else {
            r as u32 + 1
        };
        let upper = core::cmp::min(current_index + buffer_ratio as usize, expected.len());
        let (a, b, c, d) = coeffs_f[i];
        for k in 0..(upper - current_index) {
            let x = k as f32 * (step_size as f32);
            expected[current_index + k] = a + b * x + c * (x * x) + d * (x * x * x);
        }
        current_index = upper;
    }

    let mut buffer = vec![0.25f32.to_bits(); 100];
    plot_coeffs_into(&mut buffer, &coeffs, &bits_of(&KNOTS)).unwrap();
    assert_eq!(bits_of(&expected), buffer);
}

// Non-monotonic knots are not a detected error: a duplicated knot makes
// an interval of width zero, and the fit silently produces non-finite
// values instead of failing.
#[test]
fn duplicate_knots_not_detected() {
    let xs = [0.0f32, 1.0, 2.0, 2.0, 3.0, 4.0];
    let ys = [0.0f32, 1.0, 0.0, 1.0, 0.0, 1.0];
    let mut coeffs = vec![(0u32, 0u32, 0u32, 0u32); 5];
    assert!(splinterpol::<6>(&bits_of(&xs), &bits_of(&ys), &mut coeffs).is_ok());
    let any_non_finite = coeff_floats_of(&coeffs)
        .iter()
        .any(|c| !c.1.is_finite() || !c.2.is_finite() || !c.3.is_finite());
    assert!(any_non_finite);
}

// An empty interval list is accepted and leaves the buffer untouched.
#[test]
fn sampler_no_intervals() {
    let xs = vec![1.5f32.to_bits()];
    let coeffs: Vec<(u32, u32, u32, u32)> = Vec::new();
    let mut buffer = vec![0x3f80_0000u32; 5];
    assert_eq!(plot_coeffs_into(&mut buffer, &coeffs, &xs), Ok(()));
    assert_eq!(buffer, vec![0x3f80_0000u32; 5]);
}
