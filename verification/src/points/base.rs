use vstd::arithmetic::power::pow;
use vstd::prelude::*;

use num_bigint::BigInt;

verus! {

/// The quotient of `x` by `d`, rounded toward zero.
pub open spec fn truncated_quotient(x: int, d: int) -> int
    recommends
        d != 0,
{
    if x >= 0 {
        if d > 0 {
            x / d
        } else {
            -(x / (-d))
        }
    } else {
        if d > 0 {
            -((-x) / d)
        } else {
            (-x) / (-d)
        }
    }
}

/// Division rounded toward zero, in terms of the division of specifications,
/// which rounds so that the remainder is not negative.
pub proof fn lemma_truncated_quotient(x: int, d: int)
    requires
        d != 0,
    ensures
        truncated_quotient(x, d) == if x >= 0 {
            x / d
        } else {
            -((-x) / d)
        },
        truncated_quotient(x, d) * d + (x - truncated_quotient(x, d) * d) == x,
        x >= 0 ==> 0 <= x - truncated_quotient(x, d) * d,
        x <= 0 ==> x - truncated_quotient(x, d) * d <= 0,
        d > 0 ==> -d < x - truncated_quotient(x, d) * d < d,
        d < 0 ==> d < x - truncated_quotient(x, d) * d < -d,
{
    let m = if x >= 0 { x } else { -x };
    let e = if d > 0 { d } else { -d };
    assert(m == (m / e) * e + m % e && 0 <= m % e < e) by (nonlinear_arith)
        requires
            e > 0,
    ;
    if d < 0 {
        assert(m / d == -(m / e)) by (nonlinear_arith)
            requires
                m >= 0,
                d < 0,
                e == -d,
        ;
    }
    let q = truncated_quotient(x, d);
    assert(q == m / e || q == -(m / e));
    assert((m / e) * e == e * (m / e)) by (nonlinear_arith);
    assert((-(m / e)) * (-e) == (m / e) * e) by (nonlinear_arith);
    assert((-(m / e)) * e == -((m / e) * e)) by (nonlinear_arith);
    assert((m / e) * (-e) == -((m / e) * e)) by (nonlinear_arith);
}

/// What a type must offer to hold a number of points: it stands for
/// integers, and it adds, multiplies and divides by a plain integer, raises
/// to a power, tells its sign and compares.
///
/// The integers that the type can hold form a range that includes those of
/// `i32`. An operation is defined where its result is in that range.
pub trait PointsBase: Sized {
    /// The integer that the value stands for.
    spec fn value(&self) -> int;

    /// Whether the type can hold the integer `v`.
    spec fn representable(v: int) -> bool;

    /// A value of the type stands for an integer that the type can hold.
    proof fn lemma_value_representable(&self)
        ensures
            Self::representable(self.value()),
    ;

    /// The type can hold every integer of `i32`.
    proof fn lemma_i32_representable(v: int)
        requires
            i32::MIN <= v <= i32::MAX,
        ensures
            Self::representable(v),
    ;

    /// The type can hold every integer between two that it can hold.
    proof fn lemma_representable_between(low: int, v: int, high: int)
        requires
            Self::representable(low),
            Self::representable(high),
            low <= v <= high,
        ensures
            Self::representable(v),
    ;

    /// The value that stands for `v`.
    fn from_i32(v: i32) -> (r: Self)
        ensures
            r.value() == v,
    ;

    /// The sum of `self` and `rhs`.
    fn add_i32(self, rhs: i32) -> (r: Self)
        requires
            Self::representable(self.value() + rhs),
        ensures
            r.value() == self.value() + rhs,
    ;

    /// The product of `self` and `rhs`.
    fn mul_i32(self, rhs: i32) -> (r: Self)
        requires
            Self::representable(self.value() * rhs),
        ensures
            r.value() == self.value() * rhs,
    ;

    /// The quotient of `self` by `rhs`, rounded toward zero.
    fn div_i32(self, rhs: i32) -> (r: Self)
        requires
            rhs != 0,
            Self::representable(truncated_quotient(self.value(), rhs as int)),
        ensures
            r.value() == truncated_quotient(self.value(), rhs as int),
    ;

    /// `self` raised to the power `exp`.
    fn pow(self, exp: u32) -> (r: Self)
        requires
            Self::representable(pow(self.value(), exp as nat)),
        ensures
            r.value() == pow(self.value(), exp as nat),
    ;

    /// Whether `self` is greater than zero.
    fn is_positive(&self) -> (r: bool)
        ensures
            r == (self.value() > 0),
    ;

    /// Whether `self` is at least `other`.
    fn at_least(&self, other: &Self) -> (r: bool)
        ensures
            r == (self.value() >= other.value()),
    ;

    /// A second value that stands for the same integer.
    fn duplicate(&self) -> (r: Self)
        ensures
            r.value() == self.value(),
    ;
}

/// `num_traits::Pow::pow` for an `i32` and a `u32`: the power, where it is
/// an `i32`.
#[verifier::external_body]
fn i32_pow(base: i32, exp: u32) -> (r: i32)
    requires
        i32::MIN <= pow(base as int, exp as nat) <= i32::MAX,
    ensures
        r == pow(base as int, exp as nat),
{
    num_traits::Pow::pow(base, exp)
}

/// `num_traits::Signed::is_positive` for an `i32`: whether the number is
/// greater than zero.
#[verifier::external_body]
fn i32_is_positive(n: &i32) -> (r: bool)
    ensures
        r == (*n > 0),
{
    num_traits::Signed::is_positive(n)
}

impl PointsBase for i32 {
    open spec fn value(&self) -> int {
        *self as int
    }

    open spec fn representable(v: int) -> bool {
        i32::MIN <= v <= i32::MAX
    }

    proof fn lemma_value_representable(&self) {
    }

    proof fn lemma_i32_representable(v: int) {
    }

    proof fn lemma_representable_between(low: int, v: int, high: int) {
    }

    fn from_i32(v: i32) -> (r: Self) {
        v
    }

    fn add_i32(self, rhs: i32) -> (r: Self) {
        self + rhs
    }

    fn mul_i32(self, rhs: i32) -> (r: Self) {
        self * rhs
    }

    fn div_i32(self, rhs: i32) -> (r: Self) {
        proof {
            lemma_truncated_quotient(self as int, rhs as int);
        }
        self / rhs
    }

    fn pow(self, exp: u32) -> (r: Self) {
        i32_pow(self, exp)
    }

    fn is_positive(&self) -> (r: bool) {
        i32_is_positive(self)
    }

    fn at_least(&self, other: &Self) -> (r: bool) {
        *self >= *other
    }

    fn duplicate(&self) -> (r: Self) {
        *self
    }
}

/// `num_bigint::BigInt`, a signed integer of any size. Nothing is known of
/// what is inside but through `bigint_value`.
#[verifier::external_type_specification]
#[verifier::external_body]
pub struct ExBigInt(BigInt);

/// The integer that a `BigInt` of `num_bigint` holds.
pub uninterp spec fn bigint_value(n: BigInt) -> int;

/// `BigInt::from` for an `i32`: the big integer that holds `v`.
#[verifier::external_body]
fn bigint_from_i32(v: i32) -> (r: BigInt)
    ensures
        bigint_value(r) == v,
{
    BigInt::from(v)
}

/// `+` of a `BigInt` and an `i32`: the big integer that holds the sum.
#[verifier::external_body]
fn bigint_add_i32(n: BigInt, rhs: i32) -> (r: BigInt)
    ensures
        bigint_value(r) == bigint_value(n) + rhs,
{
    n + rhs
}

/// `*` of a `BigInt` and an `i32`: the big integer that holds the product.
#[verifier::external_body]
fn bigint_mul_i32(n: BigInt, rhs: i32) -> (r: BigInt)
    ensures
        bigint_value(r) == bigint_value(n) * rhs,
{
    n * rhs
}

/// `/` of a `BigInt` by an `i32` other than zero: the big integer that holds
/// the quotient, rounded toward zero.
#[verifier::external_body]
fn bigint_div_i32(n: BigInt, rhs: i32) -> (r: BigInt)
    requires
        rhs != 0,
    ensures
        bigint_value(r) == truncated_quotient(bigint_value(n), rhs as int),
{
    n / rhs
}

/// `num_traits::Pow::pow` for a `BigInt` and a `u32`: the big integer that
/// holds the power.
#[verifier::external_body]
fn bigint_pow(n: BigInt, exp: u32) -> (r: BigInt)
    ensures
        bigint_value(r) == pow(bigint_value(n), exp as nat),
{
    num_traits::Pow::pow(n, exp)
}

/// `num_traits::Signed::is_positive` for a `BigInt`: whether the integer is
/// greater than zero.
#[verifier::external_body]
fn bigint_is_positive(n: &BigInt) -> (r: bool)
    ensures
        r == (bigint_value(*n) > 0),
{
    num_traits::Signed::is_positive(n)
}

/// `>=` of two `BigInt`: whether the first integer is at least the second.
#[verifier::external_body]
fn bigint_at_least(n: &BigInt, other: &BigInt) -> (r: bool)
    ensures
        r == (bigint_value(*n) >= bigint_value(*other)),
{
    n >= other
}

/// `clone` of a `BigInt`: a big integer that holds the same integer.
#[verifier::external_body]
fn bigint_clone(n: &BigInt) -> (r: BigInt)
    ensures
        bigint_value(r) == bigint_value(*n),
{
    n.clone()
}

impl PointsBase for BigInt {
    open spec fn value(&self) -> int {
        bigint_value(*self)
    }

    open spec fn representable(v: int) -> bool {
        true
    }

    proof fn lemma_value_representable(&self) {
    }

    proof fn lemma_i32_representable(v: int) {
    }

    proof fn lemma_representable_between(low: int, v: int, high: int) {
    }

    fn from_i32(v: i32) -> (r: Self) {
        bigint_from_i32(v)
    }

    fn add_i32(self, rhs: i32) -> (r: Self) {
        bigint_add_i32(self, rhs)
    }

    fn mul_i32(self, rhs: i32) -> (r: Self) {
        bigint_mul_i32(self, rhs)
    }

    fn div_i32(self, rhs: i32) -> (r: Self) {
        bigint_div_i32(self, rhs)
    }

    fn pow(self, exp: u32) -> (r: Self) {
        bigint_pow(self, exp)
    }

    fn is_positive(&self) -> (r: bool) {
        bigint_is_positive(self)
    }

    fn at_least(&self, other: &Self) -> (r: bool) {
        bigint_at_least(self, other)
    }

    fn duplicate(&self) -> (r: Self) {
        bigint_clone(self)
    }
}

} // verus!
