//! Primality by trial division over the candidates 6k - 1 and 6k + 1.

use vstd::arithmetic::div_mod::{lemma_fundamental_div_mod, lemma_mod_multiples_basic};
use vstd::prelude::*;

verus! {

/// `d` divides `n`: `d` is positive and leaves no remainder.
pub open spec fn divides(d: nat, n: nat) -> bool {
    d > 0 && n % d == 0
}

/// `n` is a prime number: it is greater than 1 and no number strictly
/// between 1 and `n` divides it.
pub open spec fn is_prime_number(n: nat) -> bool {
    &&& n > 1
    &&& forall|d: nat| 1 < d < n ==> !#[trigger] divides(d, n)
}

/// No number from 2 up to the square root of `n` divides `n`.
pub open spec fn no_divisor_up_to_root(n: nat) -> bool {
    forall|d: nat| 2 <= d && d * d <= n ==> !#[trigger] divides(d, n)
}

/// Every number below `bound`, from 2 on, fails to divide `n`.
spec fn no_divisor_below(n: nat, bound: nat) -> bool {
    forall|d: nat| 2 <= d < bound ==> !#[trigger] divides(d, n)
}

/// Divisibility is transitive.
pub proof fn lemma_divides_transitive(k: nat, d: nat, n: nat)
    requires
        divides(k, d),
        divides(d, n),
    ensures
        divides(k, n),
{
    let a = (d / k) as int;
    let b = (n / d) as int;
    lemma_fundamental_div_mod(d as int, k as int);
    lemma_fundamental_div_mod(n as int, d as int);
    assert(n == (a * b) * k) by (nonlinear_arith)
        requires
            d == k * a,
            n == d * b,
    ;
    lemma_mod_multiples_basic(a * b, k as int);
}

/// A divisor `d` of `n` comes with a cofactor `n / d` that divides `n` too,
/// and the two multiply to `n`.
pub proof fn lemma_cofactor(d: nat, n: nat)
    requires
        divides(d, n),
        n > 0,
    ensures
        d * (n / d) == n,
        divides(n / d, n),
{
    let e = (n / d) as int;
    lemma_fundamental_div_mod(n as int, d as int);
    assert(e > 0) by (nonlinear_arith)
        requires
            n == d * e,
            n > 0,
            d > 0,
    ;
    lemma_mod_multiples_basic(d as int, e);
}

/// For `n` from 2 on, being prime is the same as having no divisor between
/// 2 and the square root of `n`: of two factors of `n` the smaller one is at
/// most the root.
pub proof fn lemma_prime_iff_no_divisor_up_to_root(n: nat)
    requires
        n >= 2,
    ensures
        is_prime_number(n) <==> no_divisor_up_to_root(n),
{
    if is_prime_number(n) {
        assert forall|d: nat| 2 <= d && d * d <= n implies !#[trigger] divides(d, n) by {
            assert(d < d * d) by (nonlinear_arith)
                requires
                    2 <= d,
            ;
        }
    }
    if no_divisor_up_to_root(n) {
        assert forall|d: nat| 1 < d < n implies !#[trigger] divides(d, n) by {
            if divides(d, n) {
                let e = n / d;
                lemma_cofactor(d, n);
                assert(2 <= e) by (nonlinear_arith)
                    requires
                        d * e == n,
                        d < n,
                        d > 1,
                ;
                if d * d > n {
                    assert(e * e <= n) by (nonlinear_arith)
                        requires
                            d * e == n,
                            d * d > n,
                            d > 1,
                            e >= 2,
                    ;
                }
            }
        }
    }
}

/// Where the wheel starts: a number that is a multiple of neither 2 nor 3
/// has no divisor below 5, because 4 is a multiple of 2.
proof fn lemma_wheel_start(n: nat)
    requires
        !divides(2, n),
        !divides(3, n),
    ensures
        no_divisor_below(n, 5),
{
    assert forall|d: nat| 2 <= d < 5 implies !#[trigger] divides(d, n) by {
        if d == 4 && divides(d, n) {
            lemma_divides_transitive(2, d, n);
        }
    }
}

/// One round of the wheel. Of the six numbers from `i = 6k - 1` to `i + 5`
/// all but `i` and `i + 2` are multiples of 2 or 3. So when nothing below
/// `i` divides `n`, and neither `i` nor `i + 2` does, nothing below `i + 6`
/// does.
proof fn lemma_wheel_round(n: nat, i: nat)
    requires
        i >= 5,
        i % 6 == 5,
        no_divisor_below(n, i),
        !divides(i, n),
        !divides(i + 2, n),
    ensures
        no_divisor_below(n, i + 6),
{
    assert forall|d: nat| 2 <= d < i + 6 implies !#[trigger] divides(d, n) by {
        if d >= i && d != i && d != i + 2 && divides(d, n) {
            if d == i + 4 {
                lemma_divides_transitive(3, d, n);
            } else {
                lemma_divides_transitive(2, d, n);
            }
        }
    }
}

/// When nothing below `bound` divides `n` and the square of `bound` is past
/// `n`, then `n` is prime.
proof fn lemma_trial_division_complete(n: nat, bound: nat)
    requires
        n >= 2,
        no_divisor_below(n, bound),
        bound * bound > n,
    ensures
        is_prime_number(n),
{
    assert forall|d: nat| 2 <= d && d * d <= n implies !#[trigger] divides(d, n) by {
        assert(d < bound) by (nonlinear_arith)
            requires
                d * d <= n,
                bound * bound > n,
        ;
    }
    lemma_prime_iff_no_divisor_up_to_root(n);
}

/// Tells whether `n` is a prime number.
///
/// After 0 and 1 (not prime), 2 and 3 (prime) and the multiples of 2 and 3
/// are dealt with, the candidates `i = 5, 11, 17, ...` and `i + 2` are tried
/// as divisors for as long as `i * i <= n`. The product is taken in 128 bits,
/// so the bound is exact for every 64-bit `n`.
#[verifier::allow_in_spec]
pub fn is_prime(n: u64) -> (result: bool)
    ensures
        result == is_prime_number(n as nat),
        n >= 2 ==> (result <==> no_divisor_up_to_root(n as nat)),
    returns
        is_prime_number(n as nat),
{
    proof {
        if n >= 2 {
            lemma_prime_iff_no_divisor_up_to_root(n as nat);
        }
    }
    if n <= 1 {
        return false;
    }
    if n <= 3 {
        return true;
    }
    if n % 2 == 0 || n % 3 == 0 {
        assert(divides(2, n as nat) || divides(3, n as nat));
        return false;
    }
    proof {
        lemma_wheel_start(n as nat);
    }
    let mut i: u64 = 5;
    while (i as u128) * (i as u128) <= (n as u128)
        invariant
            n > 3,
            5 <= i <= 0x1_0000_0005,
            i % 6 == 5,
            i * i < 0x1_0000_0000_0000_0000_0000,
            no_divisor_below(n as nat, i as nat),
        decreases 0x1_0000_0005 - i,
    {
        assert(i < 0x1_0000_0000 && i + 2 < n) by (nonlinear_arith)
            requires
                i * i <= n,
                n < 0x1_0000_0000_0000_0000,
                i >= 5,
        ;
        if n % i == 0 || n % (i + 2) == 0 {
            proof {
                assert(divides(i as nat, n as nat) || divides((i + 2) as nat, n as nat));
                lemma_prime_iff_no_divisor_up_to_root(n as nat);
            }
            return false;
        }
        proof {
            lemma_wheel_round(n as nat, i as nat);
        }
        i += 6;
        assert(i * i < 0x1_0000_0000_0000_0000_0000) by (nonlinear_arith)
            requires
                i <= 0x1_0000_0005,
        ;
    }
    proof {
        lemma_trial_division_complete(n as nat, i as nat);
    }
    true
}

} // verus!
