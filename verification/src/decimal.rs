//! Reading an unsigned 64-bit integer from its decimal notation.

use vstd::prelude::*;
use vstd::std_specs::iter::IteratorSpec;

verus! {

broadcast use vstd::string::group_string_axioms;

/// `c` is one of the ten decimal digits `0` to `9`.
pub open spec fn is_digit(c: char) -> bool {
    '0' <= c <= '9'
}

/// The number that the digit `c` stands for.
pub open spec fn digit_value(c: char) -> nat {
    (c as nat - '0' as nat) as nat
}

/// Every character of `s` is a decimal digit.
pub open spec fn all_digits(s: Seq<char>) -> bool {
    forall|i: int| 0 <= i < s.len() ==> is_digit(#[trigger] s[i])
}

/// The number that a sequence of digits denotes in base ten, most
/// significant digit first. The empty sequence denotes 0.
pub open spec fn decimal_value(digits: Seq<char>) -> nat
    decreases digits.len(),
{
    if digits.len() == 0 {
        0
    } else {
        10 * decimal_value(digits.drop_last()) + digit_value(digits.last())
    }
}

/// The token without its sign: a single leading `+` is dropped.
pub open spec fn without_sign(token: Seq<char>) -> Seq<char> {
    if token.len() > 0 && token[0] == '+' {
        token.subrange(1, token.len() as int)
    } else {
        token
    }
}

/// The number that `token` denotes, if it denotes one that fits in 64 bits.
///
/// A token denotes a number when it is an optional `+` followed by one or
/// more decimal digits and nothing else. Leading zeros are allowed; spaces,
/// a minus sign, underscores or digits of other scripts are not.
pub open spec fn decimal_u64(token: Seq<char>) -> Option<u64> {
    let digits = without_sign(token);
    if digits.len() > 0 && all_digits(digits) && decimal_value(digits) <= u64::MAX {
        Some(decimal_value(digits) as u64)
    } else {
        None
    }
}

/// A prefix of a sequence of digits denotes at most what the whole denotes.
proof fn lemma_prefix_value(digits: Seq<char>, k: int)
    requires
        0 <= k <= digits.len(),
    ensures
        decimal_value(digits.take(k)) <= decimal_value(digits),
    decreases digits.len() - k,
{
    if k < digits.len() {
        lemma_prefix_value(digits, k + 1);
        assert(digits.take(k + 1).drop_last() == digits.take(k));
    } else {
        assert(digits.take(k) == digits);
    }
}

/// Reads `token` as a decimal number.
///
/// Returns the number when the token is an optional `+` followed by one or
/// more decimal digits that denote a value of at most 2^64 - 1, and `None`
/// for every other token.
pub fn parse_u64(token: &str) -> (result: Option<u64>)
    ensures
        result == decimal_u64(token@),
{
    let ghost digits = without_sign(token@);
    let mut rest = token.chars();
    let first = rest.next();
    let mut current = match first {
        Some('+') => rest.next(),
        _ => first,
    };
    if current.is_none() {
        return None;
    }
    let mut value: u64 = 0;
    let ghost mut seen: int = 0;
    loop
        invariant
            digits == without_sign(token@),
            0 <= seen <= digits.len(),
            digits.len() > 0,
            all_digits(digits.take(seen)),
            value == decimal_value(digits.take(seen)),
            seen < digits.len() ==> current == Some(digits[seen]) && rest.remaining()
                == digits.skip(seen + 1),
            seen == digits.len() ==> current.is_none(),
        decreases digits.len() - seen,
    {
        match current {
            None => {
                assert(digits.take(seen) == digits);
                return Some(value);
            },
            Some(c) => {
                if c < '0' || c > '9' {
                    return None;
                }
                let digit = (c as u32 - '0' as u32) as u64;
                proof {
                    lemma_prefix_value(digits, seen + 1);
                    assert(digits.take(seen + 1).drop_last() == digits.take(seen));
                }
                let shifted = match value.checked_mul(10) {
                    Some(shifted) => shifted,
                    None => {
                        return None;
                    },
                };
                value = match shifted.checked_add(digit) {
                    Some(sum) => sum,
                    None => {
                        return None;
                    },
                };
                current = rest.next();
                proof {
                    seen = seen + 1;
                }
            },
        }
    }
}

} // verus!
