//! Sampler: evaluate the fitted piecewise cubic into a buffer.
//!
//! The buffer is partitioned across the intervals in proportion to each
//! interval's share of the full x-range, with the share rounded half-up;
//! each interval's cubic is then evaluated at multiples of one global
//! step.  Because the shares are rounded independently their sum may
//! overshoot the buffer, so every write is clamped to the buffer's end,
//! and an undershoot leaves the trailing slots untouched.

use crate::arith::{add32, div32, div64, from_u64_32, from_u64_64, lt32, mul32, narrow64, sub32, trunc32, widen32};
use crate::arith::{fadd32, fdiv32, fdiv64, ffromint32, ffromint64, flt32, fmul32, fnarrow, fsub32, ftrunc32, fwiden, BITS_HALF};
use vstd::prelude::*;

verus! {

/// The cubic `a + b*x + c*x^2 + d*x^3` evaluated at `x = k * step`,
/// summed left to right with `x^2` and `x^3` formed as `x*x` and
/// `(x*x)*x`.
pub open spec fn eval_at(a: u32, b: u32, c: u32, d: u32, step: u32, k: int) -> u32 {
    let x = fmul32(ffromint32(k), step);
    let xx = fmul32(x, x);
    fadd32(fadd32(fadd32(a, fmul32(b, x)), fmul32(c, xx)), fmul32(d, fmul32(xx, x)))
}

/// The sampling step of a buffer of length `m` over the knots `xs`: the
/// full x-range divided by `m`, computed in double precision and
/// narrowed back.
pub open spec fn step_of(xs: Seq<u32>, m: int) -> u32 {
    fnarrow(fdiv64(fwiden(fsub32(xs[xs.len() - 1], xs[0])), ffromint64(m)))
}

/// The number of buffer slots interval `i` asks for: `m` times the
/// interval's fraction of the x-range, rounded half-up.
pub open spec fn share_of(xs: Seq<u32>, m: int, i: int) -> int {
    let range = fsub32(xs[xs.len() - 1], xs[0]);
    let ratio = fdiv32(fsub32(xs[i + 1], xs[i]), range);
    let r = fmul32(ffromint32(m), ratio);
    let t = ftrunc32(r);
    if flt32(fsub32(r, ffromint32(t as int)), BITS_HALF) {
        t as int
    } else {
        t as int + 1
    }
}

/// The buffer index at which interval `i`'s slots begin: the shares of
/// the previous intervals summed, clamped to the buffer length `m`.
pub open spec fn start_of(xs: Seq<u32>, m: int, i: int) -> int
    decreases i,
{
    if i <= 0 {
        0
    } else {
        let next = start_of(xs, m, i - 1) + share_of(xs, m, i - 1);
        if next > m {
            m
        } else {
            next
        }
    }
}

/// Every interval's starting index lies within the buffer.
proof fn lemma_start_bounds(xs: Seq<u32>, m: int, i: int)
    requires
        m >= 0,
        i >= 0,
    ensures
        0 <= start_of(xs, m, i) <= m,
    decreases i,
{
    if i > 0 {
        lemma_start_bounds(xs, m, i - 1);
    }
}

/// Starting indices never move backwards: a later interval begins at or
/// after an earlier one.
proof fn lemma_start_monotone(xs: Seq<u32>, m: int, lo: int, hi: int)
    requires
        m >= 0,
        0 <= lo <= hi,
    ensures
        start_of(xs, m, lo) <= start_of(xs, m, hi),
    decreases hi - lo,
{
    if lo < hi {
        lemma_start_monotone(xs, m, lo, hi - 1);
        lemma_start_bounds(xs, m, hi - 1);
    }
}

/// Evaluates the cubic `a + b*x + c*x^2 + d*x^3` at `x = 0, step_size,
/// 2*step_size, ...`, writing one value per slot of `vec`.
#[verifier::loop_isolation(false)]
pub fn cubic_spline(a: u32, b: u32, c: u32, d: u32, vec: &mut Vec<u32>, step_size: u32)
    ensures
        final(vec)@.len() == old(vec)@.len(),
        forall|k: int|
            0 <= k < old(vec)@.len() ==> final(vec)@[k] == eval_at(a, b, c, d, step_size, k),
{
    let n = vec.len();
    for i in 0..n
        invariant
            vec@.len() == n,
            forall|k: int| 0 <= k < i ==> vec@[k] == eval_at(a, b, c, d, step_size, k),
    {
        let x = mul32(from_u64_32(i as u64), step_size);
        let xx = mul32(x, x);
        let value = add32(add32(add32(a, mul32(b, x)), mul32(c, xx)), mul32(d, mul32(xx, x)));
        vec.set(i, value);
    }
}

/// Plot the given coefficients into the buffer according to the intervals
/// given in `xs`.
///
/// Each interval `i` receives the slots from `start_of(i)` up to
/// `start_of(i + 1)`, filled with its cubic evaluated at multiples of the
/// global step; slots past `start_of` of the interval count keep their
/// old values.  Fails, writing nothing, unless `xs` is exactly one entry
/// longer than `coefficients`.
#[verifier::loop_isolation(false)]
pub fn plot_coeffs_into(
    buffer: &mut Vec<u32>,
    coefficients: &Vec<(u32, u32, u32, u32)>,
    xs: &Vec<u32>,
) -> (res: Result<(), ()>)
    ensures
        res is Ok <==> xs@.len() == coefficients@.len() + 1,
        res is Err ==> final(buffer)@ == old(buffer)@,
        res is Ok ==> ({
            let m = old(buffer)@.len() as int;
            &&& final(buffer)@.len() == m
            &&& (forall|i: int, k: int|
                0 <= i < coefficients@.len() && 0 <= k < start_of(xs@, m, i + 1) - start_of(
                    xs@,
                    m,
                    i,
                ) ==> final(buffer)@[start_of(xs@, m, i) + k] == eval_at(
                    coefficients@[i].0,
                    coefficients@[i].1,
                    coefficients@[i].2,
                    coefficients@[i].3,
                    step_of(xs@, m),
                    k,
                ))
            &&& (forall|j: int|
                start_of(xs@, m, coefficients@.len() as int) <= j < m ==> final(buffer)@[j] == old(
                    buffer,
                )@[j])
        }),
{
    if xs.len() == 0 || xs.len() - 1 != coefficients.len() {
        return Err(());
    }
    let m = buffer.len();
    let range = sub32(xs[xs.len() - 1], xs[0]);
    let step_size = narrow64(div64(widen32(range), from_u64_64(m as u64)));
    let ncoef = coefficients.len();
    let mut current_index: usize = 0;
    for i in 0..ncoef
        invariant
            buffer@.len() == m,
            current_index <= m,
            current_index == start_of(xs@, m as int, i as int),
            forall|i2: int, k2: int|
                0 <= i2 < i && 0 <= k2 < start_of(xs@, m as int, i2 + 1) - start_of(
                    xs@,
                    m as int,
                    i2,
                ) ==> buffer@[start_of(xs@, m as int, i2) + k2] == eval_at(
                    coefficients@[i2].0,
                    coefficients@[i2].1,
                    coefficients@[i2].2,
                    coefficients@[i2].3,
                    step_of(xs@, m as int),
                    k2,
                ),
            forall|j: int| current_index <= j < m ==> buffer@[j] == old(buffer)@[j],
    {
        let ratio = div32(sub32(xs[i + 1], xs[i]), range);
        let rbits = mul32(from_u64_32(m as u64), ratio);
        let t = trunc32(rbits);
        let share: u64 = if lt32(sub32(rbits, from_u64_32(t as u64)), BITS_HALF) {
            t as u64
        } else {
            t as u64 + 1
        };
        let room = m - current_index;
        let wcount: usize = if share >= room as u64 {
            room
        } else {
            share as usize
        };
        let (a, b, c, d) = coefficients[i];
        proof {
            assert forall|i2: int| 0 <= i2 < i implies #[trigger] start_of(xs@, m as int, i2 + 1)
                <= start_of(xs@, m as int, i as int) by {
                lemma_start_monotone(xs@, m as int, i2 + 1, i as int);
            }
            assert forall|i2: int| 0 <= i2 < i implies 0 <= #[trigger] start_of(
                xs@,
                m as int,
                i2,
            ) by {
                lemma_start_bounds(xs@, m as int, i2);
            }
        }
        for k in 0..wcount
            invariant
                buffer@.len() == m,
                current_index == start_of(xs@, m as int, i as int),
                current_index <= m,
                forall|i2: int|
                    0 <= i2 < i ==> #[trigger] start_of(xs@, m as int, i2 + 1) <= current_index,
                forall|i2: int| 0 <= i2 < i ==> 0 <= #[trigger] start_of(xs@, m as int, i2),
                forall|i2: int, k2: int|
                    0 <= i2 < i && 0 <= k2 < start_of(xs@, m as int, i2 + 1) - start_of(
                        xs@,
                        m as int,
                        i2,
                    ) ==> buffer@[start_of(xs@, m as int, i2) + k2] == eval_at(
                        coefficients@[i2].0,
                        coefficients@[i2].1,
                        coefficients@[i2].2,
                        coefficients@[i2].3,
                        step_of(xs@, m as int),
                        k2,
                    ),
                forall|k2: int|
                    0 <= k2 < k ==> buffer@[current_index + k2] == eval_at(
                        a,
                        b,
                        c,
                        d,
                        step_of(xs@, m as int),
                        k2,
                    ),
                forall|j: int| current_index + k <= j < m ==> buffer@[j] == old(buffer)@[j],
        {
            let x = mul32(from_u64_32(k as u64), step_size);
            let xx = mul32(x, x);
            let value = add32(
                add32(add32(a, mul32(b, x)), mul32(c, xx)),
                mul32(d, mul32(xx, x)),
            );
            buffer.set(current_index + k, value);
        }
        proof {
            assert(share == share_of(xs@, m as int, i as int));
            assert(current_index + wcount == start_of(xs@, m as int, i as int + 1));
        }
        current_index = current_index + wcount;
    }
    Ok(())
}

} // verus!
