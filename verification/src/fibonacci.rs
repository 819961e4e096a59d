//! Fibonacci numbers, computed by recursion and by iteration.

use crate::wrap::{lemma_wrapped_add, wrapped};
use vstd::prelude::*;

verus! {

/// The Fibonacci sequence, counted from 0: `F(0) = 0`, `F(1) = 1`, and from
/// then on each term is the sum of the two before it.
pub open spec fn fibonacci(n: nat) -> nat
    decreases n,
{
    if n < 2 {
        n
    } else {
        fibonacci((n - 1) as nat) + fibonacci((n - 2) as nat)
    }
}

/// The Fibonacci sequence never shrinks.
pub proof fn lemma_fibonacci_monotonic(a: nat, b: nat)
    requires
        a <= b,
    ensures
        fibonacci(a) <= fibonacci(b),
    decreases b,
{
    if a < b {
        lemma_fibonacci_monotonic(a, (b - 1) as nat);
    }
}

/// Some terms of the sequence, up to the first that does not fit in 64 bits.
pub proof fn lemma_fibonacci_values()
    ensures
        fibonacci(10) == 55,
        fibonacci(20) == 6765,
        fibonacci(30) == 832040,
        fibonacci(50) == 12586269025,
        fibonacci(93) == 12200160415121876738,
        fibonacci(94) == 19740274219868223167,
{
    reveal_with_fuel(fibonacci, 11);
    assert(fibonacci(9) == 34 && fibonacci(10) == 55);
    assert(fibonacci(19) == 4181 && fibonacci(20) == 6765);
    assert(fibonacci(29) == 514229 && fibonacci(30) == 832040);
    assert(fibonacci(39) == 63245986 && fibonacci(40) == 102334155);
    assert(fibonacci(49) == 7778742049 && fibonacci(50) == 12586269025);
    assert(fibonacci(59) == 956722026041 && fibonacci(60) == 1548008755920);
    assert(fibonacci(69) == 117669030460994 && fibonacci(70) == 190392490709135);
    assert(fibonacci(79) == 14472334024676221 && fibonacci(80) == 23416728348467685);
    assert(fibonacci(89) == 1779979416004714189 && fibonacci(90) == 2880067194370816120);
    assert(fibonacci(93) == 12200160415121876738 && fibonacci(94) == 19740274219868223167);
}

/// The `n`th Fibonacci number fits in 64 bits exactly when `n` is at most 93.
pub proof fn lemma_fibonacci_fits(n: nat)
    ensures
        fibonacci(n) <= u64::MAX <==> n <= 93,
{
    lemma_fibonacci_values();
    if n <= 93 {
        lemma_fibonacci_monotonic(n, 93);
    } else {
        lemma_fibonacci_monotonic(94, n);
    }
}

/// Computes `F(n)` straight from the recurrence, with two recursive calls
/// for every `n` from 2 on and nothing remembered between them: the number
/// of calls grows exponentially with `n`.
///
/// The result is exact up to `F(93)`, the largest term that fits in 64 bits.
/// Beyond it the addition wraps around, so the result is `F(n)` modulo 2^64.
#[verifier::allow_in_spec]
pub fn fibonacci_recursive(n: u64) -> (result: u64)
    ensures
        result == wrapped(fibonacci(n as nat)),
        (result == fibonacci(n as nat)) <==> n <= 93,
        n <= 1 ==> result == n,
    returns
        wrapped(fibonacci(n as nat)),
    decreases n,
{
    proof {
        lemma_fibonacci_fits(n as nat);
    }
    match n {
        0 => 0,
        1 => 1,
        _ => {
            let before = fibonacci_recursive(n - 1);
            let before_that = fibonacci_recursive(n - 2);
            proof {
                lemma_wrapped_add(fibonacci((n - 1) as nat), fibonacci((n - 2) as nat));
            }
            before.wrapping_add(before_that)
        },
    }
}

/// Computes `F(n)` with two rolling values, the previous and the current
/// term, which start at `F(0)` and `F(1)` and advance `n - 1` times.
///
/// The result is exact up to `F(93)`, the largest term that fits in 64 bits.
/// Beyond it the addition wraps around, so the result is `F(n)` modulo 2^64,
/// the same that [`fibonacci_recursive`] returns.
#[verifier::allow_in_spec]
pub fn fibonacci_iterative(n: u64) -> (result: u64)
    ensures
        result == wrapped(fibonacci(n as nat)),
        (result == fibonacci(n as nat)) <==> n <= 93,
        n <= 1 ==> result == n,
    returns
        wrapped(fibonacci(n as nat)),
{
    proof {
        lemma_fibonacci_fits(n as nat);
    }
    if n == 0 {
        return 0;
    }
    if n == 1 {
        return 1;
    }
    let mut prev: u64 = 0;
    let mut curr: u64 = 1;
    let mut k: u64 = 1;
    while k < n
        invariant
            1 <= k <= n,
            prev == wrapped(fibonacci((k - 1) as nat)),
            curr == wrapped(fibonacci(k as nat)),
        decreases n - k,
    {
        proof {
            lemma_wrapped_add(fibonacci((k - 1) as nat), fibonacci(k as nat));
        }
        let next = prev.wrapping_add(curr);
        prev = curr;
        curr = next;
        k += 1;
    }
    curr
}

} // verus!
