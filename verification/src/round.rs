//! Rounding decisions.
//!
//! Every function here answers one question: given what was read off a value
//! at a scale, which way does the value go? The answer is a [`Step`]. The
//! policies differ only in how they break an exact tie, the case in which the
//! decisive digit is 5; off a tie they all round to the nearest neighbour.

use crate::chance::coin_flip;
use crate::digits::{decisive_digit, digit_pair, ones_digit};
use vstd::arithmetic::power::{lemma_pow0, lemma_pow_increases, pow};
use vstd::prelude::*;

verus! {

/// What rounding reads off a 64-bit floating-point value at a scale.
#[derive(Clone, Copy, Debug, PartialEq, Eq, Structural)]
pub enum Reading {
    /// The value is NaN, positive infinity or negative infinity.
    NotFinite,
    /// The value is finite.
    Finite {
        /// Whether the value is below zero.
        negative: bool,
        /// The value times `10^(scale + 2)`, cut off towards zero. The
        /// product has to lie within the range of `i64`: beyond it, the
        /// digits that are read here are not those of the value.
        magnified: i64,
    },
}

/// What is to be done with a value.
#[derive(Clone, Copy, Debug, PartialEq, Eq, Structural)]
pub enum Step {
    /// Hand the value back as it is.
    Keep,
    /// Move the value to the nearest multiple of `10^-scale` that is not below it.
    Ceiling,
    /// Move the value to the nearest multiple of `10^-scale` that is not above it.
    Floor,
}

/// How an exact tie is broken.
#[derive(Clone, Copy, Debug, PartialEq, Eq, Structural)]
pub enum RoundingPolicy {
    /// Always towards positive infinity, tie or not.
    Ceiling,
    /// Always towards negative infinity, tie or not.
    Floor,
    /// A tie goes towards positive infinity.
    HalfUp,
    /// A tie goes towards negative infinity.
    HalfDown,
    /// A tie goes towards zero.
    HalfTowardsZero,
    /// A tie goes away from zero.
    HalfAwayFromZero,
    /// A tie goes to the neighbour whose last kept digit is even.
    HalfToEven,
    /// A tie goes to the neighbour whose last kept digit is odd.
    HalfToOdd,
    /// A tie goes either way, as a coin decides.
    Stochastic,
}

/// The largest scale whose multiplier fits into 64 signed bits.
pub const MAX_SCALE: u8 = 18;

impl Reading {
    /// Whether the value is below zero; `false` where it is not finite.
    pub open spec fn is_negative(self) -> bool {
        match self {
            Reading::NotFinite => false,
            Reading::Finite { negative, .. } => negative,
        }
    }

    /// The last kept digit; 0 where the value is not finite.
    pub open spec fn ones(self) -> int {
        match self {
            Reading::NotFinite => 0,
            Reading::Finite { magnified, .. } => ones_digit(magnified as int),
        }
    }

    /// The digit after the last kept one; 0 where the value is not finite.
    pub open spec fn decisive(self) -> int {
        match self {
            Reading::NotFinite => 0,
            Reading::Finite { magnified, .. } => decisive_digit(magnified as int),
        }
    }

    /// Whether the value sits at the midpoint as far as its digits show.
    pub open spec fn is_tie(self) -> bool {
        self.decisive() == 5
    }
}

impl Step {
    /// The step that moves a value in the given direction: towards positive
    /// infinity where `up` holds, towards negative infinity where it does not.
    pub open spec fn towards(up: bool) -> Step {
        if up {
            Step::Ceiling
        } else {
            Step::Floor
        }
    }
}

/// The direction of ordinary rounding to the nearest neighbour: towards
/// positive infinity exactly when one, and only one, of these holds: the
/// value is below zero, the decisive digit is above 5.
pub open spec fn nearest_up(negative: bool, decisive: int) -> bool {
    negative != (decisive > 5)
}

impl RoundingPolicy {
    /// Whether the policy sends a tie towards positive infinity, for a value
    /// with the given sign and last kept digit, and the given coin.
    pub open spec fn tie_up(self, negative: bool, ones: int, coin: bool) -> bool {
        match self {
            RoundingPolicy::Ceiling => true,
            RoundingPolicy::Floor => false,
            RoundingPolicy::HalfUp => true,
            RoundingPolicy::HalfDown => false,
            RoundingPolicy::HalfTowardsZero => negative,
            RoundingPolicy::HalfAwayFromZero => !negative,
            RoundingPolicy::HalfToEven => negative != (ones % 2 == 1),
            RoundingPolicy::HalfToOdd => negative != (ones % 2 == 0),
            RoundingPolicy::Stochastic => coin,
        }
    }

    /// Whether the policy looks at the digits at all.
    pub open spec fn is_half(self) -> bool {
        self != RoundingPolicy::Ceiling && self != RoundingPolicy::Floor
    }

    /// Whether the policy sends the value towards positive infinity.
    pub open spec fn up(self, value: Reading, coin: bool) -> bool {
        if !self.is_half() || value.is_tie() {
            self.tie_up(value.is_negative(), value.ones(), coin)
        } else {
            nearest_up(value.is_negative(), value.decisive())
        }
    }

    /// What the policy does with the value: a value that is not finite is
    /// kept, a finite one moves in the policy's direction.
    pub open spec fn rounded(self, value: Reading, coin: bool) -> Step {
        match value {
            Reading::NotFinite => Step::Keep,
            Reading::Finite { .. } => Step::towards(self.up(value, coin)),
        }
    }
}

/// The factor between a value and its count of `10^-scale` units: `10^scale`.
pub fn multiplier(scale: u8) -> (factor: i64)
    requires
        scale <= MAX_SCALE,
    ensures
        factor == pow(10, scale as nat),
        1 <= factor <= 1_000_000_000_000_000_000,
{
    let mut factor: i64 = 1;
    let mut done: u8 = 0;
    proof {
        lemma_pow0(10);
        lemma_pow_of_ten_fits(scale as nat);
    }
    while done < scale
        invariant
            done <= scale <= MAX_SCALE,
            factor == pow(10, done as nat),
            1 <= factor,
            pow(10, scale as nat) <= 1_000_000_000_000_000_000,
        decreases scale - done,
    {
        proof {
            lemma_pow_increases(10, (done + 1) as nat, scale as nat);
            reveal(pow);
        }
        factor = factor * 10;
        done = done + 1;
    }
    factor
}

/// Ten to a power of at most eighteen is at most `10^18`.
proof fn lemma_pow_of_ten_fits(e: nat)
    requires
        e <= 18,
    ensures
        pow(10, e) <= 1_000_000_000_000_000_000,
{
    lemma_pow_increases(10, e, 18);
    assert(pow(10, 18) == 1_000_000_000_000_000_000) by {
        reveal_with_fuel(pow, 19);
    }
}

/// The ones digit and the decisive digit of a value at a scale; both are 0
/// where the value is not finite.
pub fn significant_digits(value: Reading) -> (digits: (u8, u8))
    ensures
        digits.0 == value.ones(),
        digits.1 == value.decisive(),
        digits.0 <= 9,
        digits.1 <= 9,
{
    match value {
        Reading::NotFinite => (0, 0),
        Reading::Finite { magnified, .. } => digit_pair(magnified),
    }
}

/// Moves a value in the given direction; a value that is not finite is kept.
pub fn round(value: Reading, up: bool) -> (step: Step)
    ensures
        value is NotFinite ==> step == Step::Keep,
        value is Finite ==> step == Step::towards(up),
{
    match value {
        Reading::NotFinite => Step::Keep,
        Reading::Finite { .. } => if up {
            Step::Ceiling
        } else {
            Step::Floor
        },
    }
}

/// The direction of rounding to the nearest neighbour, from the sign and the
/// decisive digit. On a decisive digit of 5 the two neighbours are equally
/// near, and the policy's tie rule is to be asked instead.
pub fn nearest_direction(negative: bool, digit: u8) -> (up: bool)
    ensures
        up == nearest_up(negative, digit as int),
{
    negative != (digit > 5)
}

/// What rounding to the nearest neighbour does with a value whose decisive
/// digit is `digit`, where `coin` settles a tie.
pub open spec fn nearest_step(value: Reading, digit: int, coin: bool) -> Step {
    match value {
        Reading::NotFinite => Step::Keep,
        Reading::Finite { negative, .. } => Step::towards(
            if digit == 5 {
                coin
            } else {
                nearest_up(negative, digit)
            },
        ),
    }
}

/// Rounds to the nearest neighbour, with a tie settled by the coin handed in.
pub fn to_nearest_with(value: Reading, digit: u8, coin: bool) -> (step: Step)
    ensures
        step == nearest_step(value, digit as int, coin),
{
    match value {
        Reading::NotFinite => Step::Keep,
        Reading::Finite { negative, .. } => {
            let up = if digit == 5 {
                coin
            } else {
                nearest_direction(negative, digit)
            };
            round(value, up)
        },
    }
}

/// Rounds to the nearest neighbour, with a tie settled by a coin that is
/// flipped for this call. Off a tie no coin is flipped and the result is
/// fixed; on a tie either neighbour may come back.
pub fn to_nearest(value: Reading, digit: u8) -> (step: Step)
    ensures
        exists|coin: bool| step == nearest_step(value, digit as int, coin),
        digit != 5 ==> step == nearest_step(value, digit as int, false),
{
    let coin = if digit == 5 {
        coin_flip()
    } else {
        false
    };
    let step = to_nearest_with(value, digit, coin);
    assert(step == nearest_step(value, digit as int, coin));
    step
}

impl RoundingPolicy {
    /// The policy's answer to a tie: whether a value with the given sign and
    /// last kept digit goes towards positive infinity.
    pub fn tie_rule(self, negative: bool, ones: u8, coin: bool) -> (up: bool)
        ensures
            up == self.tie_up(negative, ones as int, coin),
    {
        match self {
            RoundingPolicy::Ceiling => true,
            RoundingPolicy::Floor => false,
            RoundingPolicy::HalfUp => true,
            RoundingPolicy::HalfDown => false,
            RoundingPolicy::HalfTowardsZero => negative,
            RoundingPolicy::HalfAwayFromZero => !negative,
            RoundingPolicy::HalfToEven => negative != (ones % 2 == 1),
            RoundingPolicy::HalfToOdd => negative != (ones % 2 == 0),
            RoundingPolicy::Stochastic => coin,
        }
    }

    /// Decides what becomes of a value under this policy, with the coin
    /// handed in. The coin is looked at only by `Stochastic`, and only on a
    /// tie.
    pub fn decide(self, value: Reading, coin: bool) -> (step: Step)
        ensures
            step == self.rounded(value, coin),
    {
        match value {
            Reading::NotFinite => Step::Keep,
            Reading::Finite { negative, .. } => {
                let digits = significant_digits(value);
                let up = match self {
                    RoundingPolicy::Ceiling => true,
                    RoundingPolicy::Floor => false,
                    _ => if digits.1 == 5 {
                        self.tie_rule(negative, digits.0, coin)
                    } else {
                        nearest_direction(negative, digits.1)
                    },
                };
                round(value, up)
            },
        }
    }

    /// Decides what becomes of a value under this policy. `Stochastic` flips
    /// its own coin on a tie, so that there either neighbour may come back;
    /// everywhere else the result is fixed.
    pub fn apply(self, value: Reading) -> (step: Step)
        ensures
            exists|coin: bool| step == self.rounded(value, coin),
            (self != RoundingPolicy::Stochastic || !value.is_tie()) ==> step == self.rounded(
                value,
                false,
            ),
    {
        let step = match self {
            RoundingPolicy::Ceiling => ceil(value),
            RoundingPolicy::Floor => floor(value),
            RoundingPolicy::HalfUp => half_up(value),
            RoundingPolicy::HalfDown => half_down(value),
            RoundingPolicy::HalfTowardsZero => half_towards_zero(value),
            RoundingPolicy::HalfAwayFromZero => half_away_from_zero(value),
            RoundingPolicy::HalfToEven => half_to_even(value),
            RoundingPolicy::HalfToOdd => half_to_odd(value),
            RoundingPolicy::Stochastic => stochastic(value),
        };
        assert(self != RoundingPolicy::Stochastic ==> step == self.rounded(value, false));
        step
    }
}

/// Breaks a tie towards positive infinity where `up` holds and towards
/// negative infinity where it does not; off a tie, rounds to the nearest
/// neighbour.
pub fn up_or_down(value: Reading, up: bool) -> (step: Step)
    ensures
        up ==> step == RoundingPolicy::HalfUp.rounded(value, true),
        up ==> step == RoundingPolicy::HalfUp.rounded(value, false),
        !up ==> step == RoundingPolicy::HalfDown.rounded(value, true),
        !up ==> step == RoundingPolicy::HalfDown.rounded(value, false),
{
    let digits = significant_digits(value);
    if digits.1 == 5 {
        round(value, up)
    } else {
        to_nearest(value, digits.1)
    }
}

/// Breaks a tie towards zero where `towards` holds and away from zero where
/// it does not; off a tie, rounds to the nearest neighbour.
pub fn towards_zero(value: Reading, towards: bool) -> (step: Step)
    ensures
        towards ==> step == RoundingPolicy::HalfTowardsZero.rounded(value, true),
        towards ==> step == RoundingPolicy::HalfTowardsZero.rounded(value, false),
        !towards ==> step == RoundingPolicy::HalfAwayFromZero.rounded(value, true),
        !towards ==> step == RoundingPolicy::HalfAwayFromZero.rounded(value, false),
{
    let digits = significant_digits(value);
    if digits.1 == 5 {
        match value {
            Reading::NotFinite => Step::Keep,
            Reading::Finite { negative, .. } => round(value, negative != !towards),
        }
    } else {
        to_nearest(value, digits.1)
    }
}

/// Breaks a tie towards the neighbour whose last kept digit is even where
/// `even` holds and towards the one whose last kept digit is odd where it
/// does not; off a tie, rounds to the nearest neighbour.
pub fn even_or_odd(value: Reading, even: bool) -> (step: Step)
    ensures
        even ==> step == RoundingPolicy::HalfToEven.rounded(value, true),
        even ==> step == RoundingPolicy::HalfToEven.rounded(value, false),
        !even ==> step == RoundingPolicy::HalfToOdd.rounded(value, true),
        !even ==> step == RoundingPolicy::HalfToOdd.rounded(value, false),
{
    let digits = significant_digits(value);
    if digits.1 == 5 {
        match value {
            Reading::NotFinite => Step::Keep,
            Reading::Finite { negative, .. } => round(
                value,
                (negative != even) != (digits.0 % 2 == 0),
            ),
        }
    } else {
        to_nearest(value, digits.1)
    }
}

/// Rounds up: a finite value goes towards positive infinity.
pub fn ceil(value: Reading) -> (step: Step)
    ensures
        step == RoundingPolicy::Ceiling.rounded(value, true),
        step == RoundingPolicy::Ceiling.rounded(value, false),
{
    round(value, true)
}

/// Rounds down: a finite value goes towards negative infinity.
pub fn floor(value: Reading) -> (step: Step)
    ensures
        step == RoundingPolicy::Floor.rounded(value, true),
        step == RoundingPolicy::Floor.rounded(value, false),
{
    round(value, false)
}

/// Rounds to the nearest neighbour, a tie away from zero.
pub fn half_away_from_zero(value: Reading) -> (step: Step)
    ensures
        step == RoundingPolicy::HalfAwayFromZero.rounded(value, true),
        step == RoundingPolicy::HalfAwayFromZero.rounded(value, false),
{
    towards_zero(value, false)
}

/// Rounds to the nearest neighbour, a tie towards negative infinity.
pub fn half_down(value: Reading) -> (step: Step)
    ensures
        step == RoundingPolicy::HalfDown.rounded(value, true),
        step == RoundingPolicy::HalfDown.rounded(value, false),
{
    up_or_down(value, false)
}

/// Rounds to the nearest neighbour, a tie to the neighbour whose last kept
/// digit is even.
pub fn half_to_even(value: Reading) -> (step: Step)
    ensures
        step == RoundingPolicy::HalfToEven.rounded(value, true),
        step == RoundingPolicy::HalfToEven.rounded(value, false),
{
    even_or_odd(value, true)
}

/// Rounds to the nearest neighbour, a tie to the neighbour whose last kept
/// digit is odd.
pub fn half_to_odd(value: Reading) -> (step: Step)
    ensures
        step == RoundingPolicy::HalfToOdd.rounded(value, true),
        step == RoundingPolicy::HalfToOdd.rounded(value, false),
{
    even_or_odd(value, false)
}

/// Rounds to the nearest neighbour, a tie towards zero.
pub fn half_towards_zero(value: Reading) -> (step: Step)
    ensures
        step == RoundingPolicy::HalfTowardsZero.rounded(value, true),
        step == RoundingPolicy::HalfTowardsZero.rounded(value, false),
{
    towards_zero(value, true)
}

/// Rounds to the nearest neighbour, a tie towards positive infinity.
pub fn half_up(value: Reading) -> (step: Step)
    ensures
        step == RoundingPolicy::HalfUp.rounded(value, true),
        step == RoundingPolicy::HalfUp.rounded(value, false),
{
    up_or_down(value, true)
}

/// Rounds to the nearest neighbour, a tie either way: a coin is flipped for
/// each call that meets one.
pub fn stochastic(value: Reading) -> (step: Step)
    ensures
        exists|coin: bool| step == RoundingPolicy::Stochastic.rounded(value, coin),
        !value.is_tie() ==> step == RoundingPolicy::Stochastic.rounded(value, false),
{
    let digits = significant_digits(value);
    let step = to_nearest(value, digits.1);
    proof {
        let coin = choose|coin: bool| step == nearest_step(value, digits.1 as int, coin);
        assert(step == RoundingPolicy::Stochastic.rounded(value, coin));
    }
    step
}

} // verus!
