//! The model of 64-bit wrap-around arithmetic that the contracts of the
//! factorial and Fibonacci functions are stated in.

use vstd::arithmetic::div_mod::lemma_mul_mod_noop_right;
use vstd::prelude::*;

verus! {

/// What is left of a natural number in a 64-bit unsigned word: the number
/// itself while it fits, and its remainder modulo 2^64 once it does not.
pub open spec fn wrapped(x: nat) -> u64 {
    (x % 0x1_0000_0000_0000_0000) as u64
}

/// Adding two wrapped numbers with wrap-around gives the wrapped sum.
pub proof fn lemma_wrapped_add(x: nat, y: nat)
    ensures
        wrapped(x).wrapping_add(wrapped(y)) == wrapped(x + y),
{
}

/// Multiplying a word by a wrapped number with wrap-around gives the wrapped
/// product.
pub proof fn lemma_wrapped_mul(a: u64, x: nat)
    ensures
        a.wrapping_mul(wrapped(x)) == wrapped(a as nat * x),
        wrapped(x).wrapping_mul(a) == wrapped(x * a as nat),
{
    lemma_mul_mod_noop_right(a as int, x as int, 0x1_0000_0000_0000_0000);
    assert(a as nat * x == x * a as nat) by (nonlinear_arith);
}

} // verus!
