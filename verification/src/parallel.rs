//! Sums of squares and an element-wise transform, sequentially and on a
//! thread pool.

use rayon::iter::{IntoParallelRefIterator, IntoParallelRefMutIterator, ParallelIterator};
use vstd::prelude::*;

verus! {

/// The sum of the squares of the items of `s`, as a mathematical integer.
pub open spec fn sum_of_squares(s: Seq<i64>) -> int
    decreases s.len(),
{
    if s.len() == 0 {
        0
    } else {
        sum_of_squares(s.drop_last()) + s.last() * s.last()
    }
}

/// A prefix never sums to more than the whole, and no sum is negative.
pub proof fn lemma_sum_of_squares_prefix(s: Seq<i64>, k: int)
    requires
        0 <= k <= s.len(),
    ensures
        0 <= sum_of_squares(s.take(k)) <= sum_of_squares(s),
    decreases s.len() - k,
{
    lemma_sum_of_squares_nonnegative(s.take(k));
    if k < s.len() {
        let next = s.take(k + 1);
        assert(next.drop_last() =~= s.take(k));
        assert(next.last() * next.last() >= 0) by (nonlinear_arith);
        lemma_sum_of_squares_prefix(s, k + 1);
    } else {
        assert(s.take(k) =~= s);
    }
}

/// A sum of squares is never negative.
pub proof fn lemma_sum_of_squares_nonnegative(s: Seq<i64>)
    ensures
        0 <= sum_of_squares(s),
    decreases s.len(),
{
    if s.len() > 0 {
        lemma_sum_of_squares_nonnegative(s.drop_last());
        assert(s.last() * s.last() >= 0) by (nonlinear_arith);
    }
}

/// One step of the sum: taking one more item adds its square, which is not
/// negative, to a sum that is not negative, and the result is still no more
/// than the sum of the whole.
pub proof fn lemma_sum_of_squares_step(s: Seq<i64>, i: int)
    requires
        0 <= i < s.len(),
    ensures
        sum_of_squares(s.take(i + 1)) == sum_of_squares(s.take(i)) + s[i] * s[i],
        0 <= sum_of_squares(s.take(i)),
        0 <= s[i] * s[i],
        sum_of_squares(s.take(i + 1)) <= sum_of_squares(s),
{
    let next = s.take(i + 1);
    assert(next.drop_last() =~= s.take(i));
    assert(next.last() == s[i]);
    lemma_sum_of_squares_prefix(s, i + 1);
    lemma_sum_of_squares_nonnegative(s.take(i));
    assert(s[i] * s[i] >= 0) by (nonlinear_arith);
}

/// Adds up the squares of `numbers` from left to right.
pub fn sum_of_squares_sequential(numbers: &[i64]) -> (total: i64)
    requires
        sum_of_squares(numbers@) <= i64::MAX,
    ensures
        total == sum_of_squares(numbers@),
{
    let mut total: i64 = 0;
    let mut i: usize = 0;
    while i < numbers.len()
        invariant
            i <= numbers.len(),
            total == sum_of_squares(numbers@.take(i as int)),
            sum_of_squares(numbers@) <= i64::MAX,
        decreases numbers.len() - i,
    {
        let x: i64 = numbers[i];
        proof {
            lemma_sum_of_squares_step(numbers@, i as int);
        }
        total = total + x * x;
        i = i + 1;
    }
    proof {
        assert(numbers@.take(i as int) =~= numbers@);
    }
    total
}

/// Adds up the squares of `numbers` from left to right, and says `None` when
/// the sum does not fit in an `i64`.
pub fn checked_sum_of_squares(numbers: &[i64]) -> (total: Option<i64>)
    ensures
        sum_of_squares(numbers@) <= i64::MAX ==> total == Some(sum_of_squares(numbers@) as i64),
        sum_of_squares(numbers@) > i64::MAX ==> total is None,
{
    let mut total: i64 = 0;
    let mut i: usize = 0;
    while i < numbers.len()
        invariant
            i <= numbers.len(),
            total == sum_of_squares(numbers@.take(i as int)),
        decreases numbers.len() - i,
    {
        let x: i64 = numbers[i];
        proof {
            lemma_sum_of_squares_step(numbers@, i as int);
        }
        let square: i64 = match x.checked_mul(x) {
            Some(q) => q,
            None => {
                return None;
            },
        };
        total = match total.checked_add(square) {
            Some(t) => t,
            None => {
                return None;
            },
        };
        i = i + 1;
    }
    proof {
        assert(numbers@.take(i as int) =~= numbers@);
    }
    Some(total)
}

/// The square of `x`.
pub fn square(x: i64) -> (q: i64)
    requires
        x * x <= i64::MAX,
    ensures
        q == x * x,
{
    proof {
        assert(x * x >= 0) by (nonlinear_arith);
    }
    x * x
}

/// Calls rayon's `par_iter`, `map` and `sum` on a slice of `i64`, with
/// [`square`] as the mapped function.
///
/// Trusted: rayon hands every item to the mapped function exactly once, adds
/// the results of contiguous pieces with `i64`'s `Sum`, and adds the pieces.
/// All squares are non-negative, so no partial sum exceeds the whole, which
/// the precondition bounds; the additions therefore do not overflow and,
/// being associative, give the mathematical sum.
#[verifier::external_body]
fn par_map_square_sum(numbers: &[i64]) -> (total: i64)
    requires
        sum_of_squares(numbers@) <= i64::MAX,
    ensures
        total == sum_of_squares(numbers@),
{
    numbers.par_iter().map(|x: &i64| square(*x)).sum()
}

/// Adds up the squares of `numbers` on rayon's thread pool.
///
/// The result is the one that [`sum_of_squares_sequential`] gives.
pub fn sum_of_squares_parallel(numbers: &[i64]) -> (total: i64)
    requires
        sum_of_squares(numbers@) <= i64::MAX,
    ensures
        total == sum_of_squares(numbers@),
{
    par_map_square_sum(numbers)
}

/// What the transform makes of one item: its square plus itself.
pub open spec fn transformed(n: i32) -> int {
    n * n + n
}

/// Whether the transform of `n` fits in an `i32`.
pub open spec fn transform_fits(n: i32) -> bool {
    transformed(n) <= i32::MAX
}

/// The transform of one item.
pub fn transform_one(n: i32) -> (r: i32)
    requires
        transform_fits(n),
    ensures
        r == transformed(n),
{
    proof {
        assert(n * (n + 1) == n * n + n) by (nonlinear_arith);
        assert(n * n + n >= 0) by (nonlinear_arith);
        assert(n >= i32::MAX ==> n * n + n > i32::MAX) by (nonlinear_arith);
    }
    n * (n + 1)
}

/// Tells whether [`transform_one`] may be applied to `n`.
pub fn can_transform(n: i32) -> (ok: bool)
    ensures
        ok == transform_fits(n),
{
    proof {
        assert(n >= 46341 ==> n * n + n > i32::MAX) by (nonlinear_arith);
        assert(n <= -46342 ==> n * n + n > i32::MAX) by (nonlinear_arith);
        assert(-46341 <= n <= 46340 ==> n * n + n <= i32::MAX) by (nonlinear_arith);
    }
    -46341 <= n && n <= 46340
}

/// Calls rayon's `par_iter_mut` and `for_each` on a slice of `i32`, with
/// [`transform_one`] applied in place to each item.
///
/// Trusted: rayon hands a mutable reference to every item to the closure
/// exactly once, so each item ends as the transform of what it was, and
/// nothing else changes.
#[verifier::external_body]
fn par_for_each_transform(numbers: &mut [i32])
    requires
        forall|i: int| 0 <= i < old(numbers)@.len() ==> transform_fits(#[trigger] old(numbers)@[i]),
    ensures
        final(numbers)@.len() == old(numbers)@.len(),
        forall|i: int|
            0 <= i < old(numbers)@.len() ==> #[trigger] final(numbers)@[i] == transformed(
                old(numbers)@[i],
            ),
{
    numbers.par_iter_mut().for_each(|n: &mut i32| *n = transform_one(*n));
}

/// Replaces every item by its square plus itself, on rayon's thread pool.
pub fn transform_in_parallel(numbers: &mut [i32])
    requires
        forall|i: int| 0 <= i < old(numbers)@.len() ==> transform_fits(#[trigger] old(numbers)@[i]),
    ensures
        final(numbers)@.len() == old(numbers)@.len(),
        forall|i: int|
            0 <= i < old(numbers)@.len() ==> #[trigger] final(numbers)@[i] == transformed(
                old(numbers)@[i],
            ),
{
    par_for_each_transform(numbers)
}

} // verus!
