//! What holds of the numeric functions taken together, stated of the
//! functions themselves.
//!
//! The functions are marked `allow_in_spec`: in a specification a call of
//! one stands for the value of its `returns` clause, which is proved of
//! every call that runs.

use crate::factorial::{
    factorial, factorial_iterative, factorial_recursive, lemma_factorial_base,
    lemma_factorial_fits,
};
use crate::fibonacci::{fibonacci, fibonacci_iterative, fibonacci_recursive, lemma_fibonacci_fits};
use crate::primality::{
    divides, is_prime, lemma_prime_iff_no_divisor_up_to_root, no_divisor_up_to_root,
};
use vstd::prelude::*;

verus! {

/// The iterative and the recursive factorial return the same value on every
/// input. That value is `n!` itself up to 20 and no further, and it is 1 for
/// both 0 and 1.
pub proof fn lemma_factorial_variants_agree(n: u64)
    ensures
        factorial_iterative(n) == factorial_recursive(n),
        (factorial_iterative(n) == factorial(n as nat)) <==> n <= 20,
        n <= 1 ==> factorial_iterative(n) == 1,
{
    lemma_factorial_fits(n as nat);
    lemma_factorial_base();
}

/// The iterative and the recursive Fibonacci function return the same value
/// on every input. That value is `F(n)` itself up to 93 and no further, and
/// it is `n` for both 0 and 1.
pub proof fn lemma_fibonacci_variants_agree(n: u64)
    ensures
        fibonacci_iterative(n) == fibonacci_recursive(n),
        (fibonacci_iterative(n) == fibonacci(n as nat)) <==> n <= 93,
        n <= 1 ==> fibonacci_iterative(n) == n,
{
    lemma_fibonacci_fits(n as nat);
}

/// From 2 on, `is_prime` holds of exactly the numbers that no number
/// between 2 and their square root divides. Below 2 nothing is prime,
/// although no such divisor exists there either.
pub proof fn lemma_is_prime_by_trial_division(n: u64)
    ensures
        n >= 2 ==> (is_prime(n) <==> no_divisor_up_to_root(n as nat)),
        n < 2 ==> !is_prime(n) && no_divisor_up_to_root(n as nat),
{
    if n >= 2 {
        lemma_prime_iff_no_divisor_up_to_root(n as nat);
    } else {
        assert forall|d: nat| 2 <= d && d * d <= n implies !#[trigger] divides(d, n as nat) by {
            assert(d * d >= 4) by (nonlinear_arith)
                requires
                    d >= 2,
            ;
        }
    }
}

/// Every function is a mapping of its argument: two calls on equal inputs
/// return equal results, whenever they are made.
pub proof fn lemma_same_input_same_result(a: u64, b: u64)
    requires
        a == b,
    ensures
        factorial_iterative(a) == factorial_iterative(b),
        factorial_recursive(a) == factorial_recursive(b),
        fibonacci_iterative(a) == fibonacci_iterative(b),
        fibonacci_recursive(a) == fibonacci_recursive(b),
        is_prime(a) == is_prime(b),
{
}

} // verus!
