use rust_xp::is_prime;

#[test]
fn test_is_prime_edge_cases() {
    assert_eq!(is_prime(0), false);
    assert_eq!(is_prime(1), false);
}

#[test]
fn test_is_prime_small_primes() {
    assert_eq!(is_prime(2), true);
    assert_eq!(is_prime(3), true);
    assert_eq!(is_prime(5), true);
    assert_eq!(is_prime(7), true);
    assert_eq!(is_prime(11), true);
    assert_eq!(is_prime(13), true);
}

#[test]
fn test_is_prime_small_composites() {
    assert_eq!(is_prime(4), false);
    assert_eq!(is_prime(6), false);
    assert_eq!(is_prime(8), false);
    assert_eq!(is_prime(9), false);
    assert_eq!(is_prime(10), false);
    assert_eq!(is_prime(12), false);
}

#[test]
fn test_is_prime_larger_primes() {
    assert_eq!(is_prime(17), true);
    assert_eq!(is_prime(19), true);
    assert_eq!(is_prime(23), true);
    assert_eq!(is_prime(29), true);
    assert_eq!(is_prime(97), true);
    assert_eq!(is_prime(101), true);
}

#[test]
fn test_is_prime_larger_composites() {
    assert_eq!(is_prime(100), false);
    assert_eq!(is_prime(121), false);
    assert_eq!(is_prime(144), false);
    assert_eq!(is_prime(1000), false);
}

#[test]
fn is_prime_on_named_values() {
    assert_eq!(is_prime(100), false);
    assert_eq!(is_prime(17), true);
    assert_eq!(is_prime(104729), true);
    assert_eq!(is_prime(10000), false);
}

/// Trial division by every number from 2 up to the root.
fn has_divisor_up_to_root(n: u64) -> bool {
    let mut d: u64 = 2;
    while d * d <= n {
        if n % d == 0 {
            return true;
        }
        d += 1;
    }
    false
}

#[test]
fn is_prime_agrees_with_plain_trial_division_up_to_10000() {
    let mut n: u64 = 0;
    while n <= 10000 {
        assert_eq!(is_prime(n), n >= 2 && !has_divisor_up_to_root(n), "n = {}", n);
        n += 1;
    }
}

#[test]
fn is_prime_is_false_below_2_though_nothing_divides() {
    assert_eq!(has_divisor_up_to_root(0), false);
    assert_eq!(has_divisor_up_to_root(1), false);
    assert_eq!(is_prime(0), false);
    assert_eq!(is_prime(1), false);
}

#[test]
fn is_prime_counts_1229_primes_below_10000() {
    let mut count = 0;
    let mut n: u64 = 0;
    while n < 10000 {
        if is_prime(n) {
            count += 1;
        }
        n += 1;
    }
    assert_eq!(count, 1229);
}

#[test]
fn is_prime_at_squares_of_primes_and_their_neighbours() {
    // 25 = 5 * 5 and 49 = 7 * 7 are the first squares that only the
    // candidates of the wheel can find.
    assert_eq!(is_prime(25), false);
    assert_eq!(is_prime(49), false);
    assert_eq!(is_prime(35), false);
    assert_eq!(is_prime(47), true);
    assert_eq!(is_prime(53), true);
    // 104729 is prime, so its square has no other divisor.
    assert_eq!(is_prime(104729 * 104729), false);
    assert_eq!(is_prime(104723 * 104729), false);
}

#[test]
fn is_prime_of_the_largest_64_bit_prime() {
    // The candidates reach 2^32 here, where their square leaves 64 bits.
    assert_eq!(is_prime(18446744073709551557), true);
}

#[test]
fn is_prime_of_the_largest_64_bit_numbers() {
    assert_eq!(is_prime(18446744073709551615), false);
    assert_eq!(is_prime(18446744073709551614), false);
    assert_eq!(is_prime(18446744073709551613), false);
}

#[test]
fn is_prime_of_the_square_of_the_largest_32_bit_prime() {
    assert_eq!(is_prime(4294967291 * 4294967291), false);
}

#[test]
fn is_prime_of_a_product_of_two_primes() {
    assert_eq!(is_prime(2147483647 * 2147483629), false);
    assert_eq!(is_prime(2147483647), true);
}

#[test]
fn is_prime_is_the_same_on_every_call() {
    let mut n: u64 = 0;
    while n <= 200 {
        assert_eq!(is_prime(n), is_prime(n));
        n += 1;
    }
}
