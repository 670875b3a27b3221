use vstd::arithmetic::div_mod::lemma_mod_multiples_basic;
use vstd::prelude::*;

use crate::points::base::{lemma_truncated_quotient, truncated_quotient, PointsBase};

verus! {

/// `value` rounded up to a multiple of `divisor`: a positive value goes to
/// the quotient of `value + divisor - 1` by `divisor`, times `divisor`; any
/// other value to the quotient of `value` by `divisor`, times `divisor`.
/// Both quotients round toward zero.
pub open spec fn rounded_up(value: int, divisor: int) -> int
    recommends
        divisor != 0,
{
    if value > 0 {
        truncated_quotient(value + (divisor - 1), divisor) * divisor
    } else {
        truncated_quotient(value, divisor) * divisor
    }
}

/// Whether `n` is a multiple of `divisor`.
pub open spec fn is_multiple_of(n: int, divisor: int) -> bool
    recommends
        divisor != 0,
{
    n % divisor == 0
}

/// Whether a type can hold every number that rounding `value` up to a
/// multiple of `divisor` goes through.
pub open spec fn round_up_defined<T: PointsBase>(value: int, divisor: int) -> bool {
    if value > 0 {
        &&& i32::MIN < divisor
        &&& T::representable(value + (divisor - 1))
        &&& T::representable(truncated_quotient(value + (divisor - 1), divisor))
        &&& T::representable(rounded_up(value, divisor))
    } else {
        &&& T::representable(truncated_quotient(value, divisor))
        &&& T::representable(rounded_up(value, divisor))
    }
}

/// For a divisor above zero, `rounded_up` is the least multiple of the
/// divisor that is not below the value, whatever the sign of the value.
pub proof fn lemma_rounded_up_is_least_multiple(value: int, divisor: int)
    requires
        divisor > 0,
    ensures
        is_multiple_of(rounded_up(value, divisor), divisor),
        value <= rounded_up(value, divisor) < value + divisor,
        forall|m: int| #[trigger]
            is_multiple_of(m, divisor) && value <= m ==> rounded_up(value, divisor) <= m,
{
    let r = rounded_up(value, divisor);
    if value > 0 {
        lemma_truncated_quotient(value + (divisor - 1), divisor);
        lemma_mod_multiples_basic(truncated_quotient(value + (divisor - 1), divisor), divisor);
    } else {
        lemma_truncated_quotient(value, divisor);
        lemma_mod_multiples_basic(truncated_quotient(value, divisor), divisor);
    }
    lemma_multiple(r, divisor);
    assert forall|m: int| #[trigger] is_multiple_of(m, divisor) && value <= m implies r <= m by {
        lemma_multiple(m, divisor);
        let k = m / divisor;
        let j = r / divisor;
        if m < r {
            assert(k < j) by (nonlinear_arith)
                requires
                    k * divisor < j * divisor,
                    divisor > 0,
            ;
            assert(k * divisor <= (j - 1) * divisor) by (nonlinear_arith)
                requires
                    k <= j - 1,
                    divisor > 0,
            ;
            assert((j - 1) * divisor == j * divisor - divisor) by (nonlinear_arith);
        }
    }
}

/// A number is a multiple of a divisor above zero where its quotient by the
/// divisor, times the divisor, gives it back.
proof fn lemma_multiple(n: int, divisor: int)
    requires
        divisor > 0,
    ensures
        n % divisor == 0 <==> n == (n / divisor) * divisor,
{
    assert(n == (n / divisor) * divisor + n % divisor) by (nonlinear_arith)
        requires
            divisor > 0,
    ;
}

/// Rounding up a second time changes nothing, for a divisor above zero.
pub proof fn lemma_rounded_up_idempotent(value: int, divisor: int)
    requires
        divisor > 0,
    ensures
        rounded_up(rounded_up(value, divisor), divisor) == rounded_up(value, divisor),
{
    let once = rounded_up(value, divisor);
    lemma_rounded_up_is_least_multiple(value, divisor);
    lemma_rounded_up_is_least_multiple(once, divisor);
    assert(is_multiple_of(once, divisor));
}

/// Where the divisor is above zero and the type can hold the value, and
/// the value plus the divisor minus one where the value is positive, the
/// type can hold every number that rounding goes through.
pub proof fn lemma_round_up_defined<T: PointsBase>(value: int, divisor: int)
    requires
        0 < divisor <= i32::MAX,
        T::representable(value),
        value > 0 ==> T::representable(value + (divisor - 1)),
    ensures
        round_up_defined::<T>(value, divisor),
{
    lemma_rounded_up_is_least_multiple(value, divisor);
    T::lemma_i32_representable(0);
    if value > 0 {
        let sum = value + (divisor - 1);
        lemma_truncated_quotient(sum, divisor);
        let q = truncated_quotient(sum, divisor);
        assert(0 <= q <= sum) by (nonlinear_arith)
            requires
                q * divisor + (sum - q * divisor) == sum,
                0 <= sum - q * divisor < divisor,
                divisor > 0,
                sum >= 0,
        ;
        T::lemma_representable_between(0, q, sum);
        T::lemma_representable_between(0, rounded_up(value, divisor), sum);
    } else {
        lemma_truncated_quotient(value, divisor);
        let q = truncated_quotient(value, divisor);
        assert(value <= q <= 0) by (nonlinear_arith)
            requires
                q * divisor + (value - q * divisor) == value,
                -divisor < value - q * divisor <= 0,
                divisor > 0,
                value <= 0,
        ;
        assert(q * divisor <= 0) by (nonlinear_arith)
            requires
                q <= 0,
                divisor > 0,
        ;
        T::lemma_representable_between(value, q, 0);
        T::lemma_representable_between(value, rounded_up(value, divisor), 0);
    }
}

/// Rounds `num` up to a multiple of `divisor`.
pub fn round_up_to<T: PointsBase>(num: T, divisor: i32) -> (r: T)
    requires
        divisor != 0,
        round_up_defined::<T>(num.value(), divisor as int),
    ensures
        r.value() == rounded_up(num.value(), divisor as int),
{
    if num.is_positive() {
        num.add_i32(divisor - 1).div_i32(divisor).mul_i32(divisor)
    } else {
        num.div_i32(divisor).mul_i32(divisor)
    }
}

/// Rounds a number of points up to the next hundred.
pub fn round_up_points<T: PointsBase>(num: T) -> (r: T)
    requires
        num.value() > 0 ==> T::representable(num.value() + 99),
    ensures
        r.value() == rounded_up(num.value(), 100),
{
    proof {
        num.lemma_value_representable();
        lemma_round_up_defined::<T>(num.value(), 100);
    }
    round_up_to(num, 100)
}

} // verus!
