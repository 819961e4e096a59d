//! Factorial, computed by recursion and by iteration.

use crate::wrap::{lemma_wrapped_mul, wrapped};
use vstd::prelude::*;

verus! {

/// The factorial of `n`: the product of the integers from 1 to `n`, which is
/// 1 for the empty product `0!`.
pub open spec fn factorial(n: nat) -> nat
    decreases n,
{
    if n == 0 {
        1
    } else {
        n * factorial((n - 1) as nat)
    }
}

/// Both `0!` and `1!` are 1.
pub proof fn lemma_factorial_base()
    ensures
        factorial(0) == 1,
        factorial(1) == 1,
{
    reveal_with_fuel(factorial, 2);
}

/// The factorial never shrinks as its argument grows.
pub proof fn lemma_factorial_monotonic(a: nat, b: nat)
    requires
        a <= b,
    ensures
        factorial(a) <= factorial(b),
    decreases b,
{
    if a < b {
        lemma_factorial_monotonic(a, (b - 1) as nat);
        assert(factorial((b - 1) as nat) <= b * factorial((b - 1) as nat)) by (nonlinear_arith)
            requires
                b >= 1,
        ;
    }
}

/// Some values of the factorial: `20!` is the largest that fits in 64 bits,
/// `21!` the first that does not.
pub proof fn lemma_factorial_values()
    ensures
        factorial(5) == 120,
        factorial(10) == 3628800,
        factorial(20) == 2432902008176640000,
        factorial(21) == 51090942171709440000,
{
    reveal_with_fuel(factorial, 6);
    assert(factorial(5) == 120);
    assert(factorial(10) == 3628800);
    assert(factorial(15) == 1307674368000);
    assert(factorial(18) == 6402373705728000);
    assert(factorial(20) == 2432902008176640000);
}

/// The factorial of `n` fits in 64 bits exactly when `n` is at most 20.
pub proof fn lemma_factorial_fits(n: nat)
    ensures
        factorial(n) <= u64::MAX <==> n <= 20,
{
    lemma_factorial_values();
    if n <= 20 {
        lemma_factorial_monotonic(n, 20);
    } else {
        lemma_factorial_monotonic(21, n);
    }
}

/// Computes `n!` by recursion on `n`, with one stack frame for each step.
///
/// The result is exact up to `20!`, the largest factorial that fits in 64
/// bits. Beyond it the multiplication wraps around, so the result is `n!`
/// modulo 2^64.
#[verifier::allow_in_spec]
pub fn factorial_recursive(n: u64) -> (result: u64)
    ensures
        result == wrapped(factorial(n as nat)),
        (result == factorial(n as nat)) <==> n <= 20,
        n <= 1 ==> result == 1,
    returns
        wrapped(factorial(n as nat)),
    decreases n,
{
    proof {
        lemma_factorial_base();
        lemma_factorial_fits(n as nat);
    }
    if n == 0 || n == 1 {
        1
    } else {
        let rest = factorial_recursive(n - 1);
        proof {
            lemma_wrapped_mul(n, factorial((n - 1) as nat));
        }
        n.wrapping_mul(rest)
    }
}

/// Computes `n!` with an accumulator that starts at 1 and takes in the
/// factors 2, 3, ..., `n` in ascending order.
///
/// The result is exact up to `20!`, the largest factorial that fits in 64
/// bits. Beyond it the multiplication wraps around, so the result is `n!`
/// modulo 2^64, the same that [`factorial_recursive`] returns.
#[verifier::allow_in_spec]
pub fn factorial_iterative(n: u64) -> (result: u64)
    ensures
        result == wrapped(factorial(n as nat)),
        (result == factorial(n as nat)) <==> n <= 20,
        n <= 1 ==> result == 1,
    returns
        wrapped(factorial(n as nat)),
{
    proof {
        lemma_factorial_base();
        lemma_factorial_fits(n as nat);
    }
    if n == 0 || n == 1 {
        return 1;
    }
    let mut result: u64 = 1;
    let mut i: u64 = 1;
    while i < n
        invariant
            1 <= i <= n,
            result == wrapped(factorial(i as nat)),
        decreases n - i,
    {
        i += 1;
        proof {
            lemma_wrapped_mul(i, factorial((i - 1) as nat));
        }
        result = result.wrapping_mul(i);
    }
    result
}

} // verus!
