//! What holds of the rounding decisions, for every value and every coin.

use crate::digits::magnitude;
use crate::round::{nearest_step, Reading, RoundingPolicy, Step};
use vstd::prelude::*;

verus! {

/// Whether the step takes the value further from zero: up for a value that is
/// not below zero, down for one that is.
pub open spec fn moves_away_from_zero(value: Reading, step: Step) -> bool {
    step == Step::towards(!value.is_negative())
}

/// The last kept digit once the step is taken: a step away from zero counts
/// the kept digit up by one, a step towards zero leaves it.
pub open spec fn kept_digit_after(value: Reading, step: Step) -> int {
    if moves_away_from_zero(value, step) {
        (value.ones() + 1) % 10
    } else {
        value.ones()
    }
}

/// A value that is not finite is kept by every policy, whatever the coin.
pub proof fn lemma_not_finite_is_kept(policy: RoundingPolicy, coin: bool)
    ensures
        policy.rounded(Reading::NotFinite, coin) == Step::Keep,
{
}

/// A finite value is never kept: every policy sends it to its ceiling or to
/// its floor.
pub proof fn lemma_finite_moves(policy: RoundingPolicy, value: Reading, coin: bool)
    requires
        value is Finite,
    ensures
        policy.rounded(value, coin) == Step::Ceiling || policy.rounded(value, coin) == Step::Floor,
{
}

/// The ceiling policy sends every finite value up and the floor policy sends
/// every finite value down, whatever its digits.
pub proof fn lemma_boundary_policies_ignore_digits(value: Reading, coin: bool)
    requires
        value is Finite,
    ensures
        RoundingPolicy::Ceiling.rounded(value, coin) == Step::Ceiling,
        RoundingPolicy::Floor.rounded(value, coin) == Step::Floor,
{
}

/// The coin matters only to the stochastic policy, and to it only on a tie.
pub proof fn lemma_coin_matters_only_on_stochastic_tie(
    policy: RoundingPolicy,
    value: Reading,
    coin: bool,
    other: bool,
)
    requires
        policy != RoundingPolicy::Stochastic || !value.is_tie(),
    ensures
        policy.rounded(value, coin) == policy.rounded(value, other),
{
}

/// Off a tie, all policies that look at the digits agree.
pub proof fn lemma_policies_agree_off_tie(
    first: RoundingPolicy,
    second: RoundingPolicy,
    value: Reading,
    coin: bool,
    other: bool,
)
    requires
        first.is_half(),
        second.is_half(),
        !value.is_tie(),
    ensures
        first.rounded(value, coin) == second.rounded(value, other),
{
}

/// Off a tie, a policy that looks at the digits rounds to the nearest
/// neighbour: the value moves away from zero exactly when its decisive digit
/// is above 5.
pub proof fn lemma_off_tie_is_nearest(policy: RoundingPolicy, value: Reading, coin: bool)
    requires
        policy.is_half(),
        value is Finite,
        !value.is_tie(),
    ensures
        policy.rounded(value, coin) == nearest_step(value, value.decisive(), coin),
        moves_away_from_zero(value, policy.rounded(value, coin)) <==> value.decisive() > 5,
{
}

/// A value that already is a multiple of `10^-scale` is no tie, and no policy
/// that looks at the digits moves it away from zero.
pub proof fn lemma_value_at_scale_stays(policy: RoundingPolicy, value: Reading, coin: bool)
    requires
        policy.is_half(),
        value matches Reading::Finite { magnified, .. } && magnitude(magnified as int) % 100 == 0,
    ensures
        !value.is_tie(),
        value.decisive() == 0,
        !moves_away_from_zero(value, policy.rounded(value, coin)),
{
    let m = magnitude(value->magnified as int);
    let h = m / 100;
    assert(m == 100 * h);
    assert(m / 10 == 10 * h);
}

/// Half up sends every tie towards positive infinity and half down sends
/// every tie towards negative infinity, whatever the sign of the value.
pub proof fn lemma_tie_up_or_down(value: Reading, coin: bool)
    requires
        value is Finite,
        value.is_tie(),
    ensures
        RoundingPolicy::HalfUp.rounded(value, coin) == Step::Ceiling,
        RoundingPolicy::HalfDown.rounded(value, coin) == Step::Floor,
{
}

/// Half towards zero never sends a tie away from zero, and half away from
/// zero always does.
pub proof fn lemma_tie_towards_or_away(value: Reading, coin: bool)
    requires
        value is Finite,
        value.is_tie(),
    ensures
        !moves_away_from_zero(value, RoundingPolicy::HalfTowardsZero.rounded(value, coin)),
        moves_away_from_zero(value, RoundingPolicy::HalfAwayFromZero.rounded(value, coin)),
{
}

/// After a tie, half to even leaves an even last kept digit and half to odd
/// an odd one.
pub proof fn lemma_tie_even_or_odd(value: Reading, coin: bool)
    requires
        value is Finite,
        value.is_tie(),
    ensures
        kept_digit_after(value, RoundingPolicy::HalfToEven.rounded(value, coin)) % 2 == 0,
        kept_digit_after(value, RoundingPolicy::HalfToOdd.rounded(value, coin)) % 2 == 1,
{
}

/// On a tie the stochastic policy follows the coin: up where it holds, down
/// where it does not.
pub proof fn lemma_tie_follows_coin(value: Reading, coin: bool)
    requires
        value is Finite,
        value.is_tie(),
    ensures
        RoundingPolicy::Stochastic.rounded(value, coin) == Step::towards(coin),
{
}

} // verus!
