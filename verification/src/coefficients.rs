//! Coefficient assembler: the remaining per-interval cubic coefficients.
//!
//! Given the full second-derivative vector `c` (with its natural-boundary
//! zero entries at both ends), the two functions here derive the linear
//! coefficient `b` and the cubic coefficient `d` of each interval's
//! polynomial `a + b*t + c*t^2 + d*t^3` in the interval-local coordinate
//! `t = x - xs[i]`.

use crate::arith::{add32, div32, fadd32, fdiv32, fmul32, fsub32, mul32, sub32};
use crate::arith::{BITS_THREE, BITS_TWO};
use crate::system::{h, width};
use crate::Error;
use vstd::prelude::*;

verus! {

/// The linear coefficient of interval `i`:
/// `(ys[i+1] - ys[i]) / h(i) - h(i) * (2*c[i] + c[i+1]) / 3`.
pub open spec fn b_at(xs: Seq<u32>, ys: Seq<u32>, cs: Seq<u32>, i: int) -> u32 {
    fsub32(
        fdiv32(fsub32(ys[i + 1], ys[i]), width(xs, i)),
        fmul32(fdiv32(fadd32(fmul32(BITS_TWO, cs[i]), cs[i + 1]), BITS_THREE), width(xs, i)),
    )
}

/// The cubic coefficient of interval `i`: `(c[i+1] - c[i]) / (3 * h(i))`.
pub open spec fn d_at(xs: Seq<u32>, cs: Seq<u32>, i: int) -> u32 {
    fdiv32(fsub32(cs[i + 1], cs[i]), fmul32(BITS_THREE, width(xs, i)))
}

/// Fills `b` with the linear coefficient of each of the `N - 1` intervals.
/// Fails, writing nothing, unless `xs`, `ys` and `cs` have length `N` and
/// `b` length `N - 1`.
pub fn calc_b<const N: usize>(
    xs: &Vec<u32>,
    ys: &Vec<u32>,
    cs: &Vec<u32>,
    b: &mut Vec<u32>,
) -> (res: Result<(), Error>)
    ensures
        res is Ok <==> (N >= 1 && cs@.len() == N && old(b)@.len() == N as int - 1 && xs@.len() == N
            && ys@.len() == N),
        res is Err ==> final(b)@ == old(b)@ && res == Err::<(), Error>(Error::InvalidSliceLength),
        res is Ok ==> final(b)@.len() == N as int - 1 && (forall|i: int|
            0 <= i < N as int - 1 ==> final(b)@[i] == b_at(xs@, ys@, cs@, i)),
{
    if cs.len() != N {
        return Err(Error::InvalidSliceLength);
    }
    if N < 1 || b.len() != N - 1 {
        return Err(Error::InvalidSliceLength);
    }
    if xs.len() != N {
        return Err(Error::InvalidSliceLength);
    }
    if ys.len() != N {
        return Err(Error::InvalidSliceLength);
    }
    for i in 0..N - 1
        invariant
            N >= 1,
            xs@.len() == N,
            ys@.len() == N,
            cs@.len() == N,
            b@.len() == N as int - 1,
            forall|j: int| 0 <= j < i ==> b@[j] == b_at(xs@, ys@, cs@, j),
    {
        let div_1 = div32(sub32(ys[i + 1], ys[i]), h(i, xs));
        let div_2 = div32(add32(mul32(BITS_TWO, cs[i]), cs[i + 1]), BITS_THREE);
        b.set(i, sub32(div_1, mul32(div_2, h(i, xs))));
    }
    Ok(())
}

/// Fills `d` with the cubic coefficient of each of the `N - 1` intervals.
/// Fails, writing nothing, unless `xs` and `cs` have length `N` and `d`
/// length `N - 1`.
pub fn calc_d<const N: usize>(xs: &Vec<u32>, cs: &Vec<u32>, d: &mut Vec<u32>) -> (res: Result<
    (),
    Error,
>)
    ensures
        res is Ok <==> (N >= 1 && xs@.len() == N && cs@.len() == N && old(d)@.len() == N as int
            - 1),
        res is Err ==> final(d)@ == old(d)@ && res == Err::<(), Error>(Error::InvalidSliceLength),
        res is Ok ==> final(d)@.len() == N as int - 1 && (forall|i: int|
            0 <= i < N as int - 1 ==> final(d)@[i] == d_at(xs@, cs@, i)),
{
    if xs.len() != N {
        return Err(Error::InvalidSliceLength);
    }
    if cs.len() != N {
        return Err(Error::InvalidSliceLength);
    }
    if N < 1 || d.len() != N - 1 {
        return Err(Error::InvalidSliceLength);
    }
    for i in 0..N - 1
        invariant
            N >= 1,
            xs@.len() == N,
            cs@.len() == N,
            d@.len() == N as int - 1,
            forall|j: int| 0 <= j < i ==> d@[j] == d_at(xs@, cs@, j),
    {
        d.set(i, div32(sub32(cs[i + 1], cs[i]), mul32(BITS_THREE, h(i, xs))));
    }
    Ok(())
}

} // verus!
