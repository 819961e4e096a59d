use rust_xp::{fibonacci_iterative, fibonacci_recursive};

#[test]
fn test_fibonacci_base_cases() {
    assert_eq!(fibonacci_recursive(0), 0);
    assert_eq!(fibonacci_recursive(1), 1);
}

#[test]
fn test_fibonacci_small_values() {
    assert_eq!(fibonacci_recursive(2), 1);
    assert_eq!(fibonacci_recursive(3), 2);
    assert_eq!(fibonacci_recursive(4), 3);
    assert_eq!(fibonacci_recursive(5), 5);
    assert_eq!(fibonacci_recursive(6), 8);
}

#[test]
fn test_fibonacci_larger_values() {
    assert_eq!(fibonacci_recursive(10), 55);
    assert_eq!(fibonacci_recursive(15), 610);
    assert_eq!(fibonacci_recursive(20), 6765);
}

#[test]
fn test_fibonacci_iterative_base_cases() {
    assert_eq!(fibonacci_iterative(0), 0);
    assert_eq!(fibonacci_iterative(1), 1);
}

#[test]
fn test_fibonacci_iterative_small_values() {
    assert_eq!(fibonacci_iterative(2), 1);
    assert_eq!(fibonacci_iterative(3), 2);
    assert_eq!(fibonacci_iterative(4), 3);
    assert_eq!(fibonacci_iterative(5), 5);
    assert_eq!(fibonacci_iterative(6), 8);
}

#[test]
fn test_fibonacci_iterative_larger_values() {
    assert_eq!(fibonacci_iterative(10), 55);
    assert_eq!(fibonacci_iterative(15), 610);
    assert_eq!(fibonacci_iterative(20), 6765);
    assert_eq!(fibonacci_iterative(30), 832040);
}

#[test]
fn test_fibonacci_iterative_very_large_values() {
    assert_eq!(fibonacci_iterative(50), 12586269025);
}

#[test]
fn test_fibonacci_recursive_base_cases() {
    assert_eq!(fibonacci_recursive(0), 0);
    assert_eq!(fibonacci_recursive(1), 1);
}

#[test]
fn test_fibonacci_recursive_small_values() {
    assert_eq!(fibonacci_recursive(2), 1);
    assert_eq!(fibonacci_recursive(3), 2);
    assert_eq!(fibonacci_recursive(4), 3);
    assert_eq!(fibonacci_recursive(5), 5);
    assert_eq!(fibonacci_recursive(6), 8);
}

#[test]
fn test_fibonacci_recursive_larger_values() {
    assert_eq!(fibonacci_recursive(10), 55);
    assert_eq!(fibonacci_recursive(15), 610);
    assert_eq!(fibonacci_recursive(20), 6765);
}

#[test]
fn fibonacci_variants_agree_up_to_30() {
    let mut n: u64 = 0;
    while n <= 30 {
        assert_eq!(fibonacci_iterative(n), fibonacci_recursive(n));
        n += 1;
    }
}

#[test]
fn fibonacci_follows_the_recurrence_while_it_fits() {
    let mut n: u64 = 2;
    while n <= 93 {
        let sum = fibonacci_iterative(n - 1) as u128 + fibonacci_iterative(n - 2) as u128;
        assert!(sum <= u64::MAX as u128);
        assert_eq!(fibonacci_iterative(n) as u128, sum);
        n += 1;
    }
}

#[test]
fn fibonacci_93_is_the_last_exact_term() {
    assert_eq!(fibonacci_iterative(92), 7540113804746346429);
    assert_eq!(fibonacci_iterative(93), 12200160415121876738);
}

#[test]
fn fibonacci_wraps_modulo_two_to_the_64_from_94_on() {
    // F(94) = 19740274219868223167 = 2^64 + 1293530146158671551
    assert_eq!(fibonacci_iterative(94), 1293530146158671551);
    // F(95) = 31940434634990099905 = 2^64 + 13493690561280548289
    assert_eq!(fibonacci_iterative(95), 13493690561280548289);
    let mut n: u64 = 96;
    while n <= 200 {
        let wrapped = fibonacci_iterative(n - 1).wrapping_add(fibonacci_iterative(n - 2));
        assert_eq!(fibonacci_iterative(n), wrapped);
        n += 1;
    }
}

#[test]
fn fibonacci_is_the_same_on_every_call() {
    let mut n: u64 = 0;
    while n <= 20 {
        assert_eq!(fibonacci_iterative(n), fibonacci_iterative(n));
        assert_eq!(fibonacci_recursive(n), fibonacci_recursive(n));
        n += 1;
    }
}
