//! System builder: the tridiagonal linear system of a natural cubic spline.
//!
//! Given the knot sequence `xs` and the sample values `ys`, the three
//! functions here compute the main diagonal, the shared sub/super-diagonal
//! and the right-hand side of the symmetric tridiagonal system whose
//! solution is the spline's interior second derivatives.

use crate::arith::{add32, div32, fadd32, fdiv32, fmul32, fsub32, mul32, sub32};
use crate::arith::{BITS_THREE, BITS_TWO};
use crate::Error;
use vstd::prelude::*;

verus! {

/// The width of interval `i` of the knot sequence: `xs[i+1] - xs[i]`.
pub open spec fn width(xs: Seq<u32>, i: int) -> u32 {
    fsub32(xs[i + 1], xs[i])
}

/// Entry `i` of the system's main diagonal: `2 * (h(i) + h(i+1))`.
pub open spec fn diag_at(xs: Seq<u32>, i: int) -> u32 {
    fmul32(BITS_TWO, fadd32(width(xs, i), width(xs, i + 1)))
}

/// Entry `i` of the system's right-hand side: three times the discrete
/// second divided difference of `ys` at knot `i + 1`.
pub open spec fn rhs_at(xs: Seq<u32>, ys: Seq<u32>, i: int) -> u32 {
    fmul32(
        BITS_THREE,
        fsub32(
            fdiv32(fsub32(ys[i + 2], ys[i + 1]), width(xs, i + 1)),
            fdiv32(fsub32(ys[i + 1], ys[i]), width(xs, i)),
        ),
    )
}

/// The width of interval `i` of the knot sequence.
pub(crate) fn h(i: usize, vals: &Vec<u32>) -> (r: u32)
    requires
        i + 1 < vals@.len(),
    ensures
        r == width(vals@, i as int),
{
    let n = vals.len();
    sub32(vals[i + 1], vals[i])
}

/// Fills `result` with the main diagonal of the spline system of the `N`
/// knots `xs`.  Fails, writing nothing, unless `xs` has length `N` and
/// `result` length `N - 2`.
pub fn calc_diagonal<const N: usize>(xs: &Vec<u32>, result: &mut Vec<u32>) -> (res: Result<
    (),
    Error,
>)
    ensures
        res is Ok <==> (xs@.len() == N && N >= 2 && old(result)@.len() == N as int - 2),
        res is Err ==> final(result)@ == old(result)@ && res == Err::<(), Error>(
            Error::InvalidSliceLength,
        ),
        res is Ok ==> final(result)@.len() == N as int - 2 && (forall|i: int|
            0 <= i < N as int - 2 ==> final(result)@[i] == diag_at(xs@, i)),
{
    if xs.len() != N {
        return Err(Error::InvalidSliceLength);
    }
    if N < 2 || result.len() != N - 2 {
        return Err(Error::InvalidSliceLength);
    }
    for i in 0..N - 2
        invariant
            xs@.len() == N,
            N >= 2,
            result@.len() == N as int - 2,
            forall|j: int| 0 <= j < i ==> result@[j] == diag_at(xs@, j),
    {
        let v = mul32(BITS_TWO, add32(h(i, xs), h(i + 1, xs)));
        result.set(i, v);
    }
    Ok(())
}

/// Fills `sub` with the shared sub/super-diagonal of the spline system:
/// `sub[i] = xs[i+2] - xs[i+1]`.  Fails, writing nothing, unless `vals`
/// is exactly three entries longer than `sub`.
pub fn calc_subdiagonal(vals: &Vec<u32>, sub: &mut Vec<u32>) -> (res: Result<(), Error>)
    ensures
        res is Ok <==> vals@.len() == old(sub)@.len() + 3,
        res is Err ==> final(sub)@ == old(sub)@ && res == Err::<(), Error>(
            Error::InvalidSliceLength,
        ),
        res is Ok ==> final(sub)@.len() == old(sub)@.len() && (forall|i: int|
            0 <= i < final(sub)@.len() ==> final(sub)@[i] == width(vals@, i + 1)),
{
    if vals.len() < 3 || sub.len() != vals.len() - 3 {
        return Err(Error::InvalidSliceLength);
    }
    let n = vals.len();
    for i in 0..n - 3
        invariant
            vals@.len() == n,
            n >= 3,
            sub@.len() == n - 3,
            forall|j: int| 0 <= j < i ==> sub@[j] == width(vals@, j + 1),
    {
        let v = sub32(vals[i + 2], vals[i + 1]);
        sub.set(i, v);
    }
    Ok(())
}

/// Fills `r` with the right-hand side of the spline system of the `N`
/// knots `xs` and values `ys`.  Fails, writing nothing, unless `xs` and
/// `ys` have length `N` and `r` length `N - 2`.
pub fn calc_r<const N: usize>(xs: &Vec<u32>, ys: &Vec<u32>, r: &mut Vec<u32>) -> (res: Result<
    (),
    Error,
>)
    ensures
        res is Ok <==> (N >= 2 && old(r)@.len() == N as int - 2 && xs@.len() == N && ys@.len()
            == N),
        res is Err ==> final(r)@ == old(r)@ && res == Err::<(), Error>(Error::InvalidSliceLength),
        res is Ok ==> final(r)@.len() == N as int - 2 && (forall|i: int|
            0 <= i < N as int - 2 ==> final(r)@[i] == rhs_at(xs@, ys@, i)),
{
    if N < 2 || r.len() != N - 2 {
        return Err(Error::InvalidSliceLength);
    }
    if xs.len() != N {
        return Err(Error::InvalidSliceLength);
    }
    if ys.len() != N {
        return Err(Error::InvalidSliceLength);
    }
    for i in 0..N - 2
        invariant
            xs@.len() == N,
            ys@.len() == N,
            N >= 2,
            r@.len() == N as int - 2,
            forall|j: int| 0 <= j < i ==> r@[j] == rhs_at(xs@, ys@, j),
    {
        let div1 = div32(sub32(ys[i + 2], ys[i + 1]), h(i + 1, xs));
        let div2 = div32(sub32(ys[i + 1], ys[i]), h(i, xs));
        r.set(i, mul32(BITS_THREE, sub32(div1, div2)));
    }
    Ok(())
}

} // verus!
