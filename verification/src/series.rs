//! Summing the odd squares below a limit, proved against a recursive
//! specification of the series.

use vstd::prelude::*;

verus! {

/// What the base `k` contributes to the series: its square, if that square
/// is odd and below `upper`, and nothing otherwise.
pub open spec fn square_contribution(k: nat, upper: nat) -> nat {
    if k * k < upper && (k * k) % 2 == 1 {
        k * k
    } else {
        0
    }
}

/// The sum of the contributions of the bases `0` through `k - 1`.
pub open spec fn sum_of_squared_odds(k: nat, upper: nat) -> nat
    decreases k,
{
    if k == 0 {
        0
    } else {
        sum_of_squared_odds((k - 1) as nat, upper) + square_contribution((k - 1) as nat, upper)
    }
}

/// Past the first base whose square reaches `upper`, the series no longer
/// grows: every later base contributes nothing.
proof fn lemma_sum_stable(k: nat, m: nat, upper: nat)
    requires
        m <= k,
        m * m >= upper,
    ensures
        sum_of_squared_odds(k, upper) == sum_of_squared_odds(m, upper),
    decreases k,
{
    if k > m {
        lemma_sum_stable((k - 1) as nat, m, upper);
        assert((k - 1) * (k - 1) >= m * m) by (nonlinear_arith)
            requires
                k - 1 >= m,
        ;
        assert(square_contribution((k - 1) as nat, upper) == 0);
    }
}

/// The sum of every odd square below `upper`: each square below the limit
/// is counted once, squares at or above it never.
pub fn sum_of_squared_odd_numbers(upper: u32) -> (total: u64)
    ensures
        total == sum_of_squared_odds(upper as nat, upper as nat),
{
    let mut total: u64 = 0;
    let mut n: u32 = 0;
    while (n as u64) * (n as u64) < (upper as u64)
        invariant
            n <= 0x10000,
            n <= upper,
            (n as int) * (n as int) <= 0x100000000,
            total == sum_of_squared_odds(n as nat, upper as nat),
            total <= (n as int) * (upper as int),
        decreases 0x10000 - n,
    {
        let square: u64 = (n as u64) * (n as u64);
        proof {
            assert(n < 0x10000) by (nonlinear_arith)
                requires
                    n <= 0x10000,
                    (n as int) * (n as int) < 0x100000000,
            ;
            assert(total + square <= (n as int + 1) * (upper as int)) by (nonlinear_arith)
                requires
                    total <= (n as int) * (upper as int),
                    square == (n as int) * (n as int),
                    square < upper,
            ;
            assert((n as int + 1) * (upper as int) <= 0x10000 * 0xffffffff) by (nonlinear_arith)
                requires
                    0 <= n as int + 1 <= 0x10000,
                    0 <= upper <= 0xffffffff,
            ;
        }
        if square % 2 == 1 {
            total = total + square;
        }
        proof {
            assert(n + 1 <= upper) by (nonlinear_arith)
                requires
                    (n as int) * (n as int) < upper,
                    n >= 0,
            ;
            assert((n as int + 1) * (n as int + 1) <= 0x100000000) by (nonlinear_arith)
                requires
                    0 <= n as int + 1 <= 0x10000,
            ;
        }
        n = n + 1;
    }
    proof {
        assert((n as int) * (n as int) >= upper);
        lemma_sum_stable(upper as nat, n as nat, upper as nat);
    }
    total
}

/// Whether `n` is odd.
pub fn is_odd(n: u32) -> (odd: bool)
    ensures
        odd == (n % 2 == 1),
{
    n % 2 == 1
}

/// Squares every element of `values` in place.
pub fn square_all(values: &mut Vec<u64>)
    requires
        forall|i: int|
            0 <= i < old(values)@.len() ==> #[trigger] (old(values)@[i] * old(values)@[i])
                <= u64::MAX,
    ensures
        final(values)@.len() == old(values)@.len(),
        forall|i: int|
            0 <= i < old(values)@.len() ==> #[trigger] final(values)@[i] == old(values)@[i]
                * old(values)@[i],
{
    let length = values.len();
    let mut i: usize = 0;
    while i < length
        invariant
            i <= length,
            values@.len() == length,
            forall|j: int| i <= j < length ==> #[trigger] values@[j] == old(values)@[j],
            forall|j: int|
                0 <= j < i ==> #[trigger] values@[j] == old(values)@[j] * old(values)@[j],
            forall|j: int|
                0 <= j < length ==> #[trigger] (old(values)@[j] * old(values)@[j]) <= u64::MAX,
        decreases length - i,
    {
        let x = values[i];
        values[i] = x * x;
        i = i + 1;
    }
}

} // verus!
