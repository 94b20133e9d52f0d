//! Direct solver for tridiagonal linear systems (Thomas algorithm).
//!
//! The solver runs a forward sweep that eliminates the sub-diagonal,
//! destructively updating the main diagonal and the right-hand side, and
//! then back-substitutes into a separate solution vector.  The spec
//! functions below state both sweeps as recurrences over the named
//! arithmetic operations, so that each entry of the mutated vectors and
//! of the solution is pinned down exactly.

use crate::arith::{div32, fdiv32, fmul32, fsub32, mul32, sub32};
use crate::Error;
use vstd::prelude::*;

verus! {

/// Entry `i` of the main diagonal after forward elimination, for the
/// system with initial main diagonal `main0`, sub-diagonal `lower` and
/// super-diagonal `upper`: each step subtracts `(lower[i-1] / main'[i-1])
/// * upper[i-1]` from the original entry.
pub open spec fn elim_main(main0: Seq<u32>, lower: Seq<u32>, upper: Seq<u32>, i: int) -> u32
    decreases i,
{
    if i <= 0 {
        main0[0]
    } else {
        fsub32(
            main0[i],
            fmul32(fdiv32(lower[i - 1], elim_main(main0, lower, upper, i - 1)), upper[i - 1]),
        )
    }
}

/// Entry `i` of the right-hand side after forward elimination: each step
/// subtracts `(lower[i-1] / main'[i-1]) * rhs'[i-1]` from the original
/// entry.
pub open spec fn elim_rhs(
    main0: Seq<u32>,
    lower: Seq<u32>,
    upper: Seq<u32>,
    r0: Seq<u32>,
    i: int,
) -> u32
    decreases i,
{
    if i <= 0 {
        r0[0]
    } else {
        fsub32(
            r0[i],
            fmul32(
                fdiv32(lower[i - 1], elim_main(main0, lower, upper, i - 1)),
                elim_rhs(main0, lower, upper, r0, i - 1),
            ),
        )
    }
}

/// Entry `i` of the solution of the `n`-by-`n` tridiagonal system, by
/// back substitution over the eliminated diagonal and right-hand side.
pub open spec fn solution_at(
    main0: Seq<u32>,
    lower: Seq<u32>,
    upper: Seq<u32>,
    r0: Seq<u32>,
    n: int,
    i: int,
) -> u32
    decreases n - i,
{
    if i >= n - 1 {
        fdiv32(elim_rhs(main0, lower, upper, r0, n - 1), elim_main(main0, lower, upper, n - 1))
    } else {
        fdiv32(
            fsub32(
                elim_rhs(main0, lower, upper, r0, i),
                fmul32(upper[i], solution_at(main0, lower, upper, r0, n, i + 1)),
            ),
            elim_main(main0, lower, upper, i),
        )
    }
}

/// Solve `Ax = r` for `A` tridiagonal.  That is, `A` must have non-zero
/// values only on the main diagonal and the upper and lower sub-diagonals.
///
/// `main` and `r` are consumed: on success they hold the eliminated
/// diagonal and right-hand side, and the solution is written to `x`.
/// Fails, writing nothing, unless `main`, `r` and `x` share one length
/// `n >= 4` and `lower` and `upper` have length `n - 1`.
pub fn thomas_algorithm(
    lower: &Vec<u32>,
    main: &mut Vec<u32>,
    upper: &Vec<u32>,
    r: &mut Vec<u32>,
    x: &mut Vec<u32>,
) -> (res: Result<(), Error>)
    ensures
        res is Ok <==> (old(main)@.len() >= 4 && lower@.len() == old(main)@.len() - 1
            && upper@.len() == old(main)@.len() - 1 && old(r)@.len() == old(main)@.len() && old(
            x,
        )@.len() == old(main)@.len()),
        res is Err ==> final(main)@ == old(main)@ && final(r)@ == old(r)@ && final(x)@ == old(x)@
            && res == Err::<(), Error>(Error::InvalidSliceLength),
        res is Ok ==> ({
            let n = old(main)@.len() as int;
            &&& final(main)@.len() == n
            &&& final(r)@.len() == n
            &&& final(x)@.len() == n
            &&& (forall|j: int|
                0 <= j < n ==> final(main)@[j] == elim_main(old(main)@, lower@, upper@, j))
            &&& (forall|j: int|
                0 <= j < n ==> final(r)@[j] == elim_rhs(old(main)@, lower@, upper@, old(r)@, j))
            &&& (forall|j: int|
                0 <= j < n ==> final(x)@[j] == solution_at(
                    old(main)@,
                    lower@,
                    upper@,
                    old(r)@,
                    n,
                    j,
                ))
        }),
{
    let n = main.len();
    if n < 4 {
        return Err(Error::InvalidSliceLength);
    }
    if lower.len() != n - 1 {
        return Err(Error::InvalidSliceLength);
    }
    if upper.len() != n - 1 {
        return Err(Error::InvalidSliceLength);
    }
    if r.len() != n {
        return Err(Error::InvalidSliceLength);
    }
    if x.len() != n {
        return Err(Error::InvalidSliceLength);
    }
    let ghost main0 = main@;
    let ghost r0 = r@;
    for i in 1..n
        invariant
            n >= 4,
            main@.len() == n,
            r@.len() == n,
            lower@.len() == n - 1,
            upper@.len() == n - 1,
            main0.len() == n,
            r0.len() == n,
            forall|j: int| 0 <= j < i ==> main@[j] == elim_main(main0, lower@, upper@, j),
            forall|j: int| i <= j < n ==> main@[j] == main0[j],
            forall|j: int| 0 <= j < i ==> r@[j] == elim_rhs(main0, lower@, upper@, r0, j),
            forall|j: int| i <= j < n ==> r@[j] == r0[j],
    {
        let mc = div32(lower[i - 1], main[i - 1]);
        let mv = sub32(main[i], mul32(mc, upper[i - 1]));
        main.set(i, mv);
        let rv = sub32(r[i], mul32(mc, r[i - 1]));
        r.set(i, rv);
    }
    let xv = div32(r[n - 1], main[n - 1]);
    x.set(n - 1, xv);
    let mut i: usize = n - 1;
    while i > 0
        invariant
            n >= 4,
            i <= n - 1,
            main@.len() == n,
            r@.len() == n,
            x@.len() == n,
            lower@.len() == n - 1,
            upper@.len() == n - 1,
            main0.len() == n,
            r0.len() == n,
            forall|j: int| 0 <= j < n ==> main@[j] == elim_main(main0, lower@, upper@, j),
            forall|j: int| 0 <= j < n ==> r@[j] == elim_rhs(main0, lower@, upper@, r0, j),
            forall|j: int|
                i <= j < n ==> x@[j] == solution_at(main0, lower@, upper@, r0, n as int, j),
        decreases i,
    {
        let idx = i - 1;
        let xv = div32(sub32(r[idx], mul32(upper[idx], x[idx + 1])), main[idx]);
        x.set(idx, xv);
        i = idx;
    }
    Ok(())
}

/// Solve `Ax = r` for `A` tridiagonal and symmetric.  That is, `A` must
/// have non-zero values only on the main diagonal and the upper and lower
/// sub-diagonals, and the values on the sub-diagonals must be equal.
///
/// Identical to [`thomas_algorithm`] with `sub_diagonal` supplied as both
/// the lower and the upper diagonal, and with the same failures.
pub fn thomas_algorithm_symmetric(
    sub_diagonal: &Vec<u32>,
    main: &mut Vec<u32>,
    r: &mut Vec<u32>,
    x: &mut Vec<u32>,
) -> (res: Result<(), Error>)
    ensures
        res is Ok <==> (old(main)@.len() >= 4 && sub_diagonal@.len() == old(main)@.len() - 1 && old(
            r,
        )@.len() == old(main)@.len() && old(x)@.len() == old(main)@.len()),
        res is Err ==> final(main)@ == old(main)@ && final(r)@ == old(r)@ && final(x)@ == old(x)@
            && res == Err::<(), Error>(Error::InvalidSliceLength),
        res is Ok ==> ({
            let n = old(main)@.len() as int;
            &&& final(main)@.len() == n
            &&& final(r)@.len() == n
            &&& final(x)@.len() == n
            &&& (forall|j: int|
                0 <= j < n ==> final(main)@[j] == elim_main(old(main)@, sub_diagonal@, sub_diagonal@, j))
            &&& (forall|j: int|
                0 <= j < n ==> final(r)@[j] == elim_rhs(
                    old(main)@,
                    sub_diagonal@,
                    sub_diagonal@,
                    old(r)@,
                    j,
                ))
            &&& (forall|j: int|
                0 <= j < n ==> final(x)@[j] == solution_at(
                    old(main)@,
                    sub_diagonal@,
                    sub_diagonal@,
                    old(r)@,
                    n,
                    j,
                ))
        }),
{
    let n = main.len();
    if n < 4 {
        return Err(Error::InvalidSliceLength);
    }
    if sub_diagonal.len() != n - 1 {
        return Err(Error::InvalidSliceLength);
    }
    if r.len() != n {
        return Err(Error::InvalidSliceLength);
    }
    if x.len() != n {
        return Err(Error::InvalidSliceLength);
    }
    let ghost main0 = main@;
    let ghost r0 = r@;
    for i in 1..n
        invariant
            n >= 4,
            main@.len() == n,
            r@.len() == n,
            sub_diagonal@.len() == n - 1,
            main0.len() == n,
            r0.len() == n,
            forall|j: int|
                0 <= j < i ==> main@[j] == elim_main(main0, sub_diagonal@, sub_diagonal@, j),
            forall|j: int| i <= j < n ==> main@[j] == main0[j],
            forall|j: int|
                0 <= j < i ==> r@[j] == elim_rhs(main0, sub_diagonal@, sub_diagonal@, r0, j),
            forall|j: int| i <= j < n ==> r@[j] == r0[j],
    {
        let mc = div32(sub_diagonal[i - 1], main[i - 1]);
        let mv = sub32(main[i], mul32(mc, sub_diagonal[i - 1]));
        main.set(i, mv);
        let rv = sub32(r[i], mul32(mc, r[i - 1]));
        r.set(i, rv);
    }
    let xv = div32(r[n - 1], main[n - 1]);
    x.set(n - 1, xv);
    let mut i: usize = n - 1;
    while i > 0
        invariant
            n >= 4,
            i <= n - 1,
            main@.len() == n,
            r@.len() == n,
            x@.len() == n,
            sub_diagonal@.len() == n - 1,
            main0.len() == n,
            r0.len() == n,
            forall|j: int|
                0 <= j < n ==> main@[j] == elim_main(main0, sub_diagonal@, sub_diagonal@, j),
            forall|j: int|
                0 <= j < n ==> r@[j] == elim_rhs(main0, sub_diagonal@, sub_diagonal@, r0, j),
            forall|j: int|
                i <= j < n ==> x@[j] == solution_at(
                    main0,
                    sub_diagonal@,
                    sub_diagonal@,
                    r0,
                    n as int,
                    j,
                ),
        decreases i,
    {
        let idx = i - 1;
        let xv = div32(sub32(r[idx], mul32(sub_diagonal[idx], x[idx + 1])), main[idx]);
        x.set(idx, xv);
        i = idx;
    }
    Ok(())
}

} // verus!
