//! The fit operation: from knots and sample values to cubic coefficients.
//!
//! `splinterpol` chains the three stages together: it builds the
//! tridiagonal system of the knots, solves it for the interior second
//! derivatives, and assembles the four coefficients of each interval's
//! cubic.  The spec functions here name each stage's output as a sequence,
//! so that the one contract of `splinterpol` pins every coefficient down.

use crate::coefficients::{b_at, calc_b, calc_d, d_at};
use crate::system::{calc_diagonal, calc_r, calc_subdiagonal, diag_at, rhs_at, width};
use crate::thomas_algorithm::{solution_at, thomas_algorithm_symmetric};
use crate::Error;
use vstd::prelude::*;

verus! {

/// The main diagonal of the spline system of the knots `xs`.
pub open spec fn diag_seq(xs: Seq<u32>) -> Seq<u32> {
    Seq::new((xs.len() - 2) as nat, |i: int| diag_at(xs, i))
}

/// The shared sub/super-diagonal of the spline system of the knots `xs`.
pub open spec fn sub_seq(xs: Seq<u32>) -> Seq<u32> {
    Seq::new((xs.len() - 3) as nat, |i: int| width(xs, i + 1))
}

/// The right-hand side of the spline system of the knots `xs` and values `ys`.
pub open spec fn rhs_seq(xs: Seq<u32>, ys: Seq<u32>) -> Seq<u32> {
    Seq::new((xs.len() - 2) as nat, |i: int| rhs_at(xs, ys, i))
}

/// Entry `i` of the fit's full second-derivative vector: zero at both
/// ends (the natural boundary condition, never solved for), the solution
/// of the interior system in between.
pub open spec fn c_at(xs: Seq<u32>, ys: Seq<u32>, i: int) -> u32 {
    if i == 0 || i == xs.len() - 1 {
        0u32
    } else {
        solution_at(
            diag_seq(xs),
            sub_seq(xs),
            sub_seq(xs),
            rhs_seq(xs, ys),
            xs.len() - 2,
            i - 1,
        )
    }
}

/// The fit's full second-derivative vector as a sequence of length `N`.
pub open spec fn c_seq(xs: Seq<u32>, ys: Seq<u32>) -> Seq<u32> {
    Seq::new(xs.len(), |i: int| c_at(xs, ys, i))
}

/// The four coefficients `(a, b, c, d)` of interval `i` of the fit:
/// `a` is the sample value at the interval's left knot.
pub open spec fn coeff_at(xs: Seq<u32>, ys: Seq<u32>, i: int) -> (u32, u32, u32, u32) {
    (ys[i], b_at(xs, ys, c_seq(xs, ys), i), c_at(xs, ys, i), d_at(xs, c_seq(xs, ys), i))
}

/// A vector of `len` zero bit patterns (the zero value, `0.0`).
fn zeroed(len: usize) -> (v: Vec<u32>)
    ensures
        v@.len() == len,
        forall|i: int| 0 <= i < len ==> v@[i] == 0u32,
{
    let mut v: Vec<u32> = Vec::new();
    for k in 0..len
        invariant
            v@.len() == k,
            forall|i: int| 0 <= i < k ==> v@[i] == 0u32,
    {
        v.push(0);
    }
    v
}

/// Given `xs` and `ys` of same length `N`, calculate the coefficients of
/// the `N - 1` cubic polynomials of the natural spline through the points.
///
/// Fails, writing nothing, unless `xs` and `ys` have length `N`,
/// `coefficients` has length `N - 1`, and `N >= 6` (the interior system
/// needs at least four unknowns).
#[verifier::loop_isolation(false)]
pub fn splinterpol<const N: usize>(
    xs: &Vec<u32>,
    ys: &Vec<u32>,
    coefficients: &mut Vec<(u32, u32, u32, u32)>,
) -> (res: Result<(), Error>)
    ensures
        res is Ok <==> (N >= 6 && xs@.len() == N && ys@.len() == N && old(coefficients)@.len()
            == N as int - 1),
        res is Err ==> final(coefficients)@ == old(coefficients)@ && res == Err::<(), Error>(
            Error::InvalidSliceLength,
        ),
        res is Ok ==> final(coefficients)@.len() == N as int - 1 && (forall|i: int|
            0 <= i < N as int - 1 ==> final(coefficients)@[i] == coeff_at(xs@, ys@, i)),
        // Interpolation: interval i's cubic starts at the sample value ys[i].
        res is Ok ==> (forall|i: int|
            0 <= i < N as int - 1 ==> final(coefficients)@[i].0 == ys@[i]),
        // Natural boundary: interval 0's second-derivative coefficient is zero.
        res is Ok ==> final(coefficients)@[0].2 == 0u32,
{
    if N < 6 || xs.len() != N || ys.len() != N || coefficients.len() != N - 1 {
        return Err(Error::InvalidSliceLength);
    }
    let mut diagonal = zeroed(N - 2);
    match calc_diagonal::<N>(xs, &mut diagonal) {
        Ok(()) => (),
        Err(e) => {
            return Err(e);
        },
    }
    let mut r = zeroed(N - 2);
    match calc_r::<N>(xs, ys, &mut r) {
        Ok(()) => (),
        Err(e) => {
            return Err(e);
        },
    }
    let mut sub_diagonal = zeroed(N - 3);
    match calc_subdiagonal(xs, &mut sub_diagonal) {
        Ok(()) => (),
        Err(e) => {
            return Err(e);
        },
    }
    proof {
        assert(diagonal@ =~= diag_seq(xs@));
        assert(sub_diagonal@ =~= sub_seq(xs@));
        assert(r@ =~= rhs_seq(xs@, ys@));
    }
    let mut c_body = zeroed(N - 2);
    match thomas_algorithm_symmetric(&sub_diagonal, &mut diagonal, &mut r, &mut c_body) {
        Ok(()) => (),
        Err(e) => {
            return Err(e);
        },
    }
    let mut c: Vec<u32> = Vec::new();
    c.push(0);
    for i in 0..N - 2
        invariant
            c@.len() == i + 1,
            c@[0] == 0u32,
            forall|j: int| 1 <= j <= i ==> c@[j] == c_body@[j - 1],
    {
        c.push(c_body[i]);
    }
    c.push(0);
    proof {
        assert(c@ =~= c_seq(xs@, ys@));
    }
    let mut b = zeroed(N - 1);
    match calc_b::<N>(xs, ys, &c, &mut b) {
        Ok(()) => (),
        Err(e) => {
            return Err(e);
        },
    }
    let mut d = zeroed(N - 1);
    match calc_d::<N>(xs, &c, &mut d) {
        Ok(()) => (),
        Err(e) => {
            return Err(e);
        },
    }
    for i in 0..N - 1
        invariant
            coefficients@.len() == N as int - 1,
            forall|j: int| 0 <= j < i ==> coefficients@[j] == coeff_at(xs@, ys@, j),
    {
        coefficients.set(i, (ys[i], b[i], c[i], d[i]));
    }
    Ok(())
}

} // verus!
