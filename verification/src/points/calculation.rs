use vstd::arithmetic::power::{lemma_pow_increases, lemma_pow_positive, pow};
use vstd::arithmetic::power2::{lemma2_to64, lemma_pow2};
use vstd::prelude::*;

use crate::points::base::{lemma_truncated_quotient, truncated_quotient, PointsBase};
use crate::points::units::{Fu, Han, Honbas};

verus! {

/// Point calculation mode for use with `PointsCustom::from_calculated`.
#[derive(Copy, Clone, Debug, Ord, PartialOrd, Eq, PartialEq, Hash, Structural)]
pub enum PointsCalculationMode {
    /// Default, most strict mode. The point table is strictly followed
    /// (including missing ron/tsumo values e.g for 1 han, 20 fu), and only
    /// valid fu values can be provided.
    Default,
    /// Loose mode. Contrary to the Default mode, this allows fu values to be
    /// invalid (e.g. 10 or 21), and it returns values for all possible han/fu
    /// combinations.
    Loose,
    /// Unlimited mode, also known as Aotenjou rules.
    /// This disables limiting the hands to mangan and above, possibly producing
    /// absurdly high score numbers.
    Unlimited,
}

impl Default for PointsCalculationMode {
    fn default() -> (r: Self)
        ensures
            r == PointsCalculationMode::Default,
    {
        Self::Default
    }
}

/// Error type returned when point calculation in
/// `PointsCustom::from_calculated` fails.
#[derive(Debug, Copy, Clone)]
pub enum PointCalculationError {
    /// Invalid han value provided (below 1).
    /// Only returned with [`PointsCalculationMode::Default`].
    InvalidHan(Han),
    /// Invalid fu value provided (below 20, above 110, or not divisible by 5).
    /// Only returned with [`PointsCalculationMode::Default`].
    InvalidFu(Fu),
    /// Invalid honba counter provided (below 0).
    /// Only returned with [`PointsCalculationMode::Default`].
    InvalidHonbas(Honbas),
}

impl PointCalculationError {
    /// The message of the error.
    pub open spec fn message(self) -> Seq<char> {
        match self {
            PointCalculationError::InvalidHan(han) => "Han cannot be less than 1: "@ + han.text(),
            PointCalculationError::InvalidFu(fu) => "Invalid fu value: "@ + fu.text(),
            PointCalculationError::InvalidHonbas(honbas) => "Invalid honba count: "@
                + honbas.text(),
        }
    }

    /// Returns the message of the error, which names the value that was
    /// refused.
    pub fn to_string(&self) -> (r: String)
        ensures
            r@ == self.message(),
    {
        match self {
            PointCalculationError::InvalidHan(han) => String::from_str(
                "Han cannot be less than 1: ",
            ).concat(han.to_string().as_str()),
            PointCalculationError::InvalidFu(fu) => String::from_str("Invalid fu value: ").concat(
                fu.to_string().as_str(),
            ),
            PointCalculationError::InvalidHonbas(honbas) => String::from_str(
                "Invalid honba count: ",
            ).concat(honbas.to_string().as_str()),
        }
    }
}

/// The least han of a mangan that no fu is asked for.
pub const MANGAN_HAN: i32 = 5;

/// The least han of a haneman.
pub const HANEMAN_HAN: i32 = 6;

/// The least han of a baiman.
pub const BAIMAN_HAN: i32 = 8;

/// The least han of a sanbaiman.
pub const SANBAIMAN_HAN: i32 = 11;

/// The least han of a kazoe yakuman.
pub const KAZOE_YAKUMAN_HAN: i32 = 13;

/// The base points of a mangan.
pub const MANGAN_BASE_POINTS: i32 = 2000;

/// The base points of a haneman.
pub const HANEMAN_BASE_POINTS: i32 = 3000;

/// The base points of a baiman.
pub const BAIMAN_BASE_POINTS: i32 = 4000;

/// The base points of a sanbaiman.
pub const SANBAIMAN_BASE_POINTS: i32 = 6000;

/// The base points of a yakuman.
pub const YAKUMAN_BASE_POINTS: i32 = 8000;

/// The base points from which a hand below five han counts as a mangan:
/// the points at which a non-dealer's ron would go above 7900.
pub const MANGAN_THRESHOLD: i32 = 1975;

/// Whether `fu` is one of the fu values of the point table.
pub open spec fn valid_fu(fu: int) -> bool {
    fu == 20 || fu == 25 || fu == 30 || fu == 40 || fu == 50 || fu == 60 || fu == 70 || fu == 80
        || fu == 90 || fu == 100 || fu == 110
}

/// The base points that a number of han gives whatever the fu: those of the
/// tier that the han fall in, from mangan (five han) to kazoe yakuman
/// (thirteen and more). Below five han there is no tier.
pub open spec fn tier_base_points(han: int) -> Option<int> {
    if han < MANGAN_HAN {
        None
    } else if han < HANEMAN_HAN {
        Some(MANGAN_BASE_POINTS as int)
    } else if han < BAIMAN_HAN {
        Some(HANEMAN_BASE_POINTS as int)
    } else if han < SANBAIMAN_HAN {
        Some(BAIMAN_BASE_POINTS as int)
    } else if han < KAZOE_YAKUMAN_HAN {
        Some(SANBAIMAN_BASE_POINTS as int)
    } else {
        Some(YAKUMAN_BASE_POINTS as int)
    }
}

/// Whether the point table has a tsumo value for the han and fu.
pub open spec fn has_tsumo_entry(han: int, fu: int) -> bool {
    !((han == 1 && fu == 20) || (han == 1 && fu == 25) || (han == 2 && fu == 25))
}

/// Whether the point table has a ron value for the han and fu.
pub open spec fn has_ron_entry(han: int, fu: int) -> bool {
    !((han == 1 && fu == 20) || (han == 1 && fu == 25) || (han == 2 && fu == 20) || (han == 3
        && fu == 20) || (han == 4 && fu == 20))
}

/// The base points that the formula gives: with `power` for han plus two,
/// fu times two to the `power` where `power` is not negative. Where it is
/// negative, fu is divided by two to the minus `power`: a positive fu is
/// rounded up, any other fu toward zero.
pub open spec fn formula_base_points(han: int, fu: int) -> int {
    let power = han + 2;
    if power >= 0 {
        fu * pow(2, power as nat)
    } else {
        let divisor = pow(2, (-power) as nat);
        if fu > 0 {
            truncated_quotient(fu + divisor - 1, divisor)
        } else {
            truncated_quotient(fu, divisor)
        }
    }
}

/// Where han plus two is negative, the formula gives the least number whose
/// product with the divisor is not below fu: it rounds up, whatever the
/// sign of fu.
pub proof fn lemma_formula_rounds_up(han: int, fu: int)
    requires
        han + 2 < 0,
    ensures
        (formula_base_points(han, fu) - 1) * pow(2, (-(han + 2)) as nat) < fu,
        fu <= formula_base_points(han, fu) * pow(2, (-(han + 2)) as nat),
{
    let divisor = pow(2, (-(han + 2)) as nat);
    let quotient = formula_base_points(han, fu);
    lemma_pow_positive(2, (-(han + 2)) as nat);
    if fu > 0 {
        lemma_truncated_quotient(fu + divisor - 1, divisor);
    } else {
        lemma_truncated_quotient(fu, divisor);
    }
    assert((quotient - 1) * divisor == quotient * divisor - divisor) by (nonlinear_arith);
}

/// Whether a type can hold what the formula goes through for the han and
/// fu: two to the power of han plus two, and that power times fu, where han
/// plus two is positive. Otherwise the formula stays within `i32`.
pub open spec fn formula_defined<T: PointsBase>(han: int, fu: int) -> bool {
    han + 2 > 0 ==> T::representable(pow(2, (han + 2) as nat)) && T::representable(
        pow(2, (han + 2) as nat) * fu,
    )
}

/// Below five han and for a fu within `i32` whose product with 64 is within
/// `i32` too, every type can hold what the formula goes through.
pub proof fn lemma_formula_defined_below_mangan<T: PointsBase>(han: int, fu: int)
    requires
        han < MANGAN_HAN,
        i32::MIN <= fu * 64 <= i32::MAX,
        i32::MIN <= fu <= i32::MAX,
    ensures
        formula_defined::<T>(han, fu),
{
    if han + 2 > 0 {
        let e = (han + 2) as nat;
        lemma_pow_positive(2, e);
        lemma_pow_increases(2, e, 6);
        lemma2_to64();
        lemma_pow2(6);
        let p = pow(2, e);
        T::lemma_i32_representable(p);
        if fu >= 0 {
            assert(0 <= p * fu <= 64 * fu) by (nonlinear_arith)
                requires
                    0 < p <= 64,
                    fu >= 0,
            ;
        } else {
            assert(64 * fu <= p * fu <= 0) by (nonlinear_arith)
                requires
                    0 < p <= 64,
                    fu < 0,
            ;
        }
        T::lemma_i32_representable(p * fu);
    }
}

/// Whether the point table has a fu value `fu`.
pub fn is_valid_fu(fu: Fu) -> (r: bool)
    ensures
        r == valid_fu(fu@),
{
    let value = fu.get();
    value == 20 || value == 25 || value == 30 || value == 40 || value == 50 || value == 60
        || value == 70 || value == 80 || value == 90 || value == 100 || value == 110
}

/// Whether the point table has a tsumo value for the han and fu.
pub fn has_tsumo(han: Han, fu: Fu) -> (r: bool)
    ensures
        r == has_tsumo_entry(han@, fu@),
{
    let han = han.get();
    let fu = fu.get();
    !((han == 1 && fu == 20) || (han == 1 && fu == 25) || (han == 2 && fu == 25))
}

/// Whether the point table has a ron value for the han and fu.
pub fn has_ron(han: Han, fu: Fu) -> (r: bool)
    ensures
        r == has_ron_entry(han@, fu@),
{
    let han = han.get();
    let fu = fu.get();
    !((han == 1 && fu == 20) || (han == 1 && fu == 25) || (han == 2 && fu == 20) || (han == 3
        && fu == 20) || (han == 4 && fu == 20))
}

/// Two to the power `exp`, for an `exp` of at most 32.
fn power_of_two(exp: u32) -> (r: i64)
    requires
        exp <= 32,
    ensures
        r == pow(2, exp as nat),
        1 <= r <= 0x1_0000_0000,
{
    let mut r: i64 = 1;
    let mut i: u32 = 0;
    proof {
        reveal(pow);
    }
    while i < exp
        invariant
            i <= exp <= 32,
            r == pow(2, i as nat),
            1 <= r <= 0x1_0000_0000,
        decreases exp - i,
    {
        proof {
            reveal(pow);
            assert(pow(2, (i + 1) as nat) == 2 * pow(2, i as nat));
            lemma_pow_increases(2, (i + 1) as nat, 32);
            lemma2_to64();
            lemma_pow2(32);
        }
        r = r * 2;
        i = i + 1;
    }
    r
}

/// Dividing by a divisor above its magnitude sends a positive number,
/// rounded up, to one, and any other number, rounded toward zero, to zero.
proof fn lemma_quotient_by_large_divisor(n: int, divisor: int)
    requires
        -divisor < n < divisor,
    ensures
        n > 0 ==> truncated_quotient(n + divisor - 1, divisor) == 1,
        n <= 0 ==> truncated_quotient(n, divisor) == 0,
{
    if n > 0 {
        let sum = n + divisor - 1;
        lemma_truncated_quotient(sum, divisor);
        let q = truncated_quotient(sum, divisor);
        assert(q == 1) by (nonlinear_arith)
            requires
                q * divisor + (sum - q * divisor) == sum,
                0 <= sum - q * divisor < divisor,
                divisor <= sum < 2 * divisor,
        ;
    } else {
        lemma_truncated_quotient(n, divisor);
        let q = truncated_quotient(n, divisor);
        assert(q == 0) by (nonlinear_arith)
            requires
                q * divisor + (n - q * divisor) == n,
                -divisor < n - q * divisor <= 0,
                -divisor < n <= 0,
        ;
    }
}

/// The base points that the formula gives for the han and fu.
pub fn formula_points<T: PointsBase>(han: Han, fu: Fu) -> (r: T)
    requires
        formula_defined::<T>(han@, fu@),
    ensures
        r.value() == formula_base_points(han@, fu@),
{
    let power: i64 = han.get() as i64 + 2;
    if power > 0 {
        proof {
            assert(pow(2, 1) == 2) by {
                reveal_with_fuel(pow, 2);
            }
            assert(pow(2, power as nat) * fu@ == fu@ * pow(2, power as nat)) by (nonlinear_arith);
        }
        T::from_i32(2).pow(power as u32).mul_i32(fu.get())
    } else {
        let ghost divisor = pow(2, (-power) as nat);
        let shift: u32 = if power < -32 {
            32
        } else {
            (-power) as u32
        };
        let multiplier: i64 = power_of_two(shift);
        let fu_value: i64 = fu.get() as i64;
        let value: i64 = if fu_value > 0 {
            (fu_value + multiplier - 1) / multiplier
        } else {
            fu_value / multiplier
        };
        proof {
            if power == 0 {
                reveal(pow);
                assert(pow(2, 0) == 1);
                assert(fu@ * pow(2, 0) == fu@);
                assert(multiplier == 1);
            } else {
                if fu_value > 0 {
                    lemma_truncated_quotient(fu_value + multiplier - 1, multiplier as int);
                } else {
                    lemma_truncated_quotient(fu_value as int, multiplier as int);
                }
                if power < -32 {
                    lemma2_to64();
                    lemma_pow2(32);
                    lemma_pow_increases(2, 32, (-power) as nat);
                    lemma_quotient_by_large_divisor(fu@, divisor);
                    lemma_quotient_by_large_divisor(fu@, multiplier as int);
                }
            }
            let q = value as int;
            if fu_value > 0 {
                let sum = fu_value + multiplier - 1;
                assert(0 <= q <= fu_value) by (nonlinear_arith)
                    requires
                        q * multiplier + (sum - q * multiplier) == sum,
                        0 <= sum - q * multiplier < multiplier,
                        sum == fu_value + multiplier - 1,
                        multiplier >= 1,
                        fu_value >= 1,
                ;
            } else {
                assert(fu_value <= q <= 0) by (nonlinear_arith)
                    requires
                        q * multiplier + (fu_value - q * multiplier) == fu_value,
                        -multiplier < fu_value - q * multiplier <= 0,
                        multiplier >= 1,
                        fu_value <= 0,
                ;
            }
        }
        T::from_i32(value as i32)
    }
}

} // verus!
