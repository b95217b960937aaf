//! The two digits of a magnified integer that rounding looks at.

use vstd::arithmetic::div_mod::lemma_fundamental_div_mod_converse;
use vstd::prelude::*;

verus! {

/// The absolute value of `x`.
pub open spec fn magnitude(x: int) -> int {
    if x < 0 {
        -x
    } else {
        x
    }
}

/// The last digit that rounding keeps: the hundreds digit of the magnified
/// integer, which is the ones digit of the value scaled by `10^scale`.
pub open spec fn ones_digit(magnified: int) -> int {
    (magnitude(magnified) / 100) % 10
}

/// The digit right after the kept ones: the tens digit of the magnified
/// integer. It is the one that is compared against 5.
pub open spec fn decisive_digit(magnified: int) -> int {
    (magnitude(magnified) / 10) % 10
}

/// Both digits are decimal digits, whatever the magnified integer.
pub proof fn lemma_digits_are_decimal(magnified: int)
    ensures
        0 <= ones_digit(magnified) <= 9,
        0 <= decisive_digit(magnified) <= 9,
{
}

/// The digits do not depend on the sign of the magnified integer.
pub proof fn lemma_digits_ignore_sign(magnified: int)
    ensures
        ones_digit(-magnified) == ones_digit(magnified),
        decisive_digit(-magnified) == decisive_digit(magnified),
{
}

/// Both digits can be read off the last three decimal digits of the
/// magnitude alone.
pub proof fn lemma_digits_of_last_three(magnified: int)
    ensures
        ones_digit(magnified) == (magnitude(magnified) % 1000) / 100,
        decisive_digit(magnified) == ((magnitude(magnified) % 1000) / 10) % 10,
{
    let m = magnitude(magnified);
    let q = m / 1000;
    let r = m % 1000;
    assert(m == 1000 * q + r && 0 <= r < 1000);
    let tens = r / 10;
    assert(r == 10 * tens + r % 10 && 0 <= tens < 100);
    assert(m / 10 == 100 * q + tens) by {
        lemma_fundamental_div_mod_converse(m, 10, 100 * q + tens, r % 10);
    }
    let hundreds = tens / 10;
    assert(tens == 10 * hundreds + tens % 10 && 0 <= hundreds < 10);
    assert((m / 10) % 10 == tens % 10) by {
        lemma_fundamental_div_mod_converse(m / 10, 10, 10 * q + hundreds, tens % 10);
    }
    assert(r / 100 == hundreds) by {
        lemma_fundamental_div_mod_converse(r, 100, hundreds, 10 * (tens % 10) + r % 10);
    }
    assert(m / 100 == 10 * q + hundreds) by {
        lemma_fundamental_div_mod_converse(m, 100, 10 * q + hundreds, 10 * (tens % 10) + r % 10);
    }
    assert((m / 100) % 10 == hundreds) by {
        lemma_fundamental_div_mod_converse(m / 100, 10, q, hundreds);
    }
}

/// Splits off the ones digit and the decisive digit of a magnified integer.
///
/// The last three decimal digits are taken without their sign; of these the
/// first is the ones digit and the second the decisive digit.
pub fn digit_pair(magnified: i64) -> (digits: (u8, u8))
    ensures
        digits.0 == ones_digit(magnified as int),
        digits.1 == decisive_digit(magnified as int),
        digits.0 <= 9,
        digits.1 <= 9,
{
    let rest: i64 = magnified - magnified / 1000 * 1000;
    let stripped: i64 = if rest < 0 {
        -rest
    } else {
        rest
    };
    let y: u8 = (stripped / 10) as u8;
    proof {
        lemma_digits_of_last_three(magnified as int);
    }
    (y / 10, y % 10)
}

} // verus!
