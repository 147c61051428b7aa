//! The n-th term of the additive (Fibonacci-style) sequence, computed
//! iteratively in constant space.
//!
//! The generator has a deliberately coarse boundary: its counter
//! starts at 2, so every requested position up to 2 returns the second
//! seed value, 1, and position `n` beyond that yields the term one
//! step before `n` in the standard zero-indexed sequence.

use vstd::prelude::*;

verus! {

/// The standard additive sequence with seeds 0 and 1.
pub open spec fn fib(n: nat) -> nat
    decreases n,
{
    if n == 0 {
        0
    } else if n == 1 {
        1
    } else {
        fib((n - 2) as nat) + fib((n - 1) as nat)
    }
}

/// What the generator returns for position `n`: positions 0, 1 and 2
/// collapse to the seed value 1, and from position 3 on the result is
/// `fib(n - 1)`.
pub open spec fn spec_nth_fib(n: nat) -> nat {
    if n <= 2 {
        1
    } else {
        fib((n - 1) as nat)
    }
}

/// The sequence never decreases from one term to the next.
proof fn lemma_fib_monotonic(i: nat, j: nat)
    requires
        i <= j,
    ensures
        fib(i) <= fib(j),
    decreases j - i,
{
    if i < j {
        lemma_fib_monotonic(i, (j - 1) as nat);
    }
}

/// From position 4 on, each generated term is the sum of the two
/// preceding generated terms. (At position 3 the boundary collapse
/// breaks the recurrence: the generator returns 1 there, not
/// `spec_nth_fib(2) + spec_nth_fib(1)`.)
pub proof fn lemma_nth_fib_recurrence(n: nat)
    requires
        4 <= n,
    ensures
        spec_nth_fib(n) == spec_nth_fib((n - 1) as nat) + spec_nth_fib((n - 2) as nat),
{
    if n == 4 {
        assert(fib(3) == fib(1) + fib(2));
        assert(fib(2) == fib(0) + fib(1));
    }
}

/// Compute the term of the additive sequence at position `n`.
pub fn nth_fib(n: u32) -> (term: u32)
    requires
        spec_nth_fib(n as nat) <= u32::MAX,
    ensures
        term == spec_nth_fib(n as nat),
{
    let mut f1: u32 = 0;
    let mut f2: u32 = 1;
    let mut count: u32 = 2;
    while count < n
        invariant
            2 <= count,
            n <= 2 ==> count == 2,
            2 < n ==> count <= n,
            f1 == fib((count - 2) as nat),
            f2 == fib((count - 1) as nat),
            spec_nth_fib(n as nat) <= u32::MAX,
        decreases n - count,
    {
        proof {
            lemma_fib_monotonic(count as nat, (n - 1) as nat);
        }
        f2 = f2 + f1;
        f1 = f2 - f1;
        count = count + 1;
    }
    f2
}

} // verus!
