use vstd::prelude::*;

pub use base::{bigint_value, lemma_truncated_quotient, truncated_quotient, PointsBase};
pub use calculation::{
    formula_base_points, formula_defined, formula_points, has_ron, has_ron_entry, has_tsumo,
    has_tsumo_entry, is_valid_fu, lemma_formula_defined_below_mangan, lemma_formula_rounds_up,
    tier_base_points, valid_fu, PointCalculationError, PointsCalculationMode, BAIMAN_BASE_POINTS, BAIMAN_HAN,
    HANEMAN_BASE_POINTS, HANEMAN_HAN, KAZOE_YAKUMAN_HAN, MANGAN_BASE_POINTS, MANGAN_HAN,
    MANGAN_THRESHOLD, SANBAIMAN_BASE_POINTS, SANBAIMAN_HAN, YAKUMAN_BASE_POINTS,
};
pub use rounding::{
    is_multiple_of, lemma_round_up_defined, lemma_rounded_up_idempotent, lemma_rounded_up_is_least_multiple,
    round_up_defined, round_up_points, round_up_to, rounded_up,
};
pub use units::{Fu, Han, Honbas};

mod base;
mod calculation;
mod rounding;
mod units;

verus! {

/// Whether a value was calculated from han and fu below the mangan limit, or
/// is a limited one (mangan and above).
#[derive(Copy, Clone, Debug, Eq, PartialEq, Hash, Structural)]
pub enum PointsMode {
    /// A value below mangan. The point table may hold no tsumo and no ron
    /// value for it.
    Calculated {
        /// Whether there is a value for a win by tsumo.
        has_tsumo: bool,
        /// Whether there is a value for a win by ron.
        has_ron: bool,
    },
    /// A value of mangan or above: tsumo and ron are both there.
    Limited,
}

impl PointsMode {
    /// Whether there is a value for a win by tsumo.
    pub open spec fn tsumo(self) -> bool {
        match self {
            PointsMode::Calculated { has_tsumo, .. } => has_tsumo,
            PointsMode::Limited => true,
        }
    }

    /// Whether there is a value for a win by ron.
    pub open spec fn ron(self) -> bool {
        match self {
            PointsMode::Calculated { has_ron, .. } => has_ron,
            PointsMode::Limited => true,
        }
    }

    /// Whether there is a value for a win by tsumo.
    pub fn has_tsumo(&self) -> (r: bool)
        ensures
            r == self.tsumo(),
    {
        match self {
            PointsMode::Calculated { has_tsumo, .. } => *has_tsumo,
            PointsMode::Limited => true,
        }
    }

    /// Whether there is a value for a win by ron.
    pub fn has_ron(&self) -> (r: bool)
        ensures
            r == self.ron(),
    {
        match self {
            PointsMode::Calculated { has_ron, .. } => *has_ron,
            PointsMode::Limited => true,
        }
    }
}

/// What a number of points is made of: the base points, the number of
/// honbas, and whether it was calculated or is a limited one.
pub struct PointsView {
    /// The base points, from which each payment is a multiple, rounded up.
    pub base_points: int,
    /// The number of honbas.
    pub honbas: int,
    /// Whether the value was calculated or is a limited one.
    pub mode: PointsMode,
}

/// The points that each honba adds to a payment of a win by tsumo.
pub const TSUMO_HONBA_POINTS: i32 = 100;

/// The points that each honba adds to the payment of a win by ron.
pub const RON_HONBA_POINTS: i32 = 300;

impl PointsView {
    /// Whether the value is a limited one.
    pub open spec fn is_limited(self) -> bool {
        self.mode is Limited
    }

    /// Whether the value was calculated.
    pub open spec fn is_calculated(self) -> bool {
        self.mode is Calculated
    }

    /// A payment: `factor` times the base points, rounded up to the next
    /// hundred, and after that `per_honba` points for each honba.
    pub open spec fn payment(self, factor: int, per_honba: int) -> int {
        rounded_up(self.base_points * factor, 100) + self.honbas * per_honba
    }

    /// What everyone pays the dealer on a win by tsumo, if there is such a
    /// value.
    pub open spec fn oya_tsumo(self) -> Option<int> {
        if self.mode.tsumo() {
            Some(self.payment(2, TSUMO_HONBA_POINTS as int))
        } else {
            None
        }
    }

    /// What the discarding player pays the dealer on a win by ron, if there
    /// is such a value.
    pub open spec fn oya_ron(self) -> Option<int> {
        if self.mode.ron() {
            Some(self.payment(6, RON_HONBA_POINTS as int))
        } else {
            None
        }
    }

    /// What the non-dealers and the dealer pay a non-dealer on a win by
    /// tsumo, if there is such a value.
    pub open spec fn ko_tsumo(self) -> Option<(int, int)> {
        if self.mode.tsumo() {
            Some(
                (
                    self.payment(1, TSUMO_HONBA_POINTS as int),
                    self.payment(2, TSUMO_HONBA_POINTS as int),
                ),
            )
        } else {
            None
        }
    }

    /// What the discarding player pays a non-dealer on a win by ron, if
    /// there is such a value.
    pub open spec fn ko_ron(self) -> Option<int> {
        if self.mode.ron() {
            Some(self.payment(4, RON_HONBA_POINTS as int))
        } else {
            None
        }
    }

    /// The same points with one honba more.
    pub open spec fn with_one_more_honba(self) -> PointsView {
        PointsView { honbas: self.honbas + 1, ..self }
    }

    /// Whether a type can hold every number that computing a payment goes
    /// through, and `i32` the points of the honbas.
    pub open spec fn payment_defined<T: PointsBase>(self, factor: int, per_honba: int) -> bool {
        let multiple = self.base_points * factor;
        &&& T::representable(multiple)
        &&& multiple > 0 ==> T::representable(multiple + 99)
        &&& i32::MIN <= self.honbas * per_honba <= i32::MAX
        &&& T::representable(self.payment(factor, per_honba))
    }
}

/// The error that the strict mode answers the han, fu and honbas with, if
/// any: han below one, then a fu that the point table lacks, then honbas
/// below zero. The other modes refuse nothing.
pub open spec fn validation_error(
    mode: PointsCalculationMode,
    han: Han,
    fu: Fu,
    honbas: Honbas,
) -> Option<PointCalculationError> {
    if mode != PointsCalculationMode::Default {
        None
    } else if han@ < 1 {
        Some(PointCalculationError::InvalidHan(han))
    } else if !valid_fu(fu@) {
        Some(PointCalculationError::InvalidFu(fu))
    } else if honbas@ < 0 {
        Some(PointCalculationError::InvalidHonbas(honbas))
    } else {
        None
    }
}

/// Whether the formula is what gives the base points: no error is
/// answered, and the han are free of a tier or the mode knows no tier.
pub open spec fn formula_applies(
    mode: PointsCalculationMode,
    han: Han,
    fu: Fu,
    honbas: Honbas,
) -> bool {
    validation_error(mode, han, fu, honbas) is None && (mode == PointsCalculationMode::Unlimited
        || tier_base_points(han@) is None)
}

/// The points for the han, fu and honbas in the given mode, or the error.
///
/// Unless the mode is the unlimited one, han of a tier give the limited
/// points of that tier, and base points of the formula that reach the mangan
/// threshold give a mangan. What is left is calculated points with the base
/// points of the formula; in the strict mode they have the tsumo and ron
/// values that the point table has, in the other modes both.
pub open spec fn calculated_points(
    mode: PointsCalculationMode,
    han: Han,
    fu: Fu,
    honbas: Honbas,
) -> Result<PointsView, PointCalculationError> {
    let unlimited = mode == PointsCalculationMode::Unlimited;
    let strict = mode == PointsCalculationMode::Default;
    let base_points = formula_base_points(han@, fu@);
    if let Some(error) = validation_error(mode, han, fu, honbas) {
        Err(error)
    } else if !unlimited && tier_base_points(han@) is Some {
        Ok(
            PointsView {
                base_points: tier_base_points(han@)->0,
                honbas: honbas@,
                mode: PointsMode::Limited,
            },
        )
    } else if !unlimited && base_points >= MANGAN_THRESHOLD {
        Ok(
            PointsView {
                base_points: MANGAN_BASE_POINTS as int,
                honbas: honbas@,
                mode: PointsMode::Limited,
            },
        )
    } else {
        Ok(
            PointsView {
                base_points,
                honbas: honbas@,
                mode: PointsMode::Calculated {
                    has_tsumo: !strict || has_tsumo_entry(han@, fu@),
                    has_ron: !strict || has_ron_entry(han@, fu@),
                },
            },
        )
    }
}

/// Number of (scoring) points.
///
/// Base points are calculated using the following formula: fu × 2^(2 + han).
/// Base points are then multiplied by 1, 2, 4, or 6, and rounded up to the
/// next 100 to get the number of points paid to the winner. Specifically:
/// * non-dealer tsumo: base points × 1 paid by other non-dealers, base points ×
///   2 paid by the dealer,
/// * non-dealer ron: base points × 4 paid by the discarding player,
/// * dealer tsumo: base points × 2 paid by everyone,
/// * dealer ron: base points × 6 paid by the discarding player.
///
/// This variant uses [`i32`] as its base to store the number of points.
pub type Points = PointsCustom<i32>;

/// Number of (scoring) points.
///
/// This type allows to specify a base type that stores the number of points.
/// This allows one to e.g. use big integers and calculate the number of points
/// for absurdly high number of [`Han`].
#[derive(Clone, Debug, Eq, PartialEq, Hash)]
pub struct PointsCustom<T> {
    base_points: T,
    honbas: Honbas,
    mode: PointsMode,
}

impl<T: PointsBase> View for PointsCustom<T> {
    type V = PointsView;

    closed spec fn view(&self) -> PointsView {
        PointsView { base_points: self.base_points.value(), honbas: self.honbas@, mode: self.mode }
    }
}

/// A value is a limited one or a calculated one, never both and never
/// neither.
pub proof fn lemma_limited_xor_calculated(points: PointsView)
    ensures
        points.is_limited() != points.is_calculated(),
{
}

/// A win by tsumo has a value for the dealer exactly where it has one for a
/// non-dealer, and what the dealer pays a non-dealer is what everyone pays
/// the dealer.
pub proof fn lemma_ko_tsumo_dealer_share(points: PointsView)
    ensures
        points.ko_tsumo() is Some <==> points.oya_tsumo() is Some,
        match points.ko_tsumo() {
            Some((_, by_oya)) => points.oya_tsumo() == Some(by_oya),
            None => true,
        },
{
}

/// One honba more adds 100 points to every payment of a win by tsumo and 300
/// points to every payment of a win by ron, whatever the base points and the
/// mode, and leaves unchanged which payments there are.
pub proof fn lemma_honba_linearity(points: PointsView)
    ensures
        points.with_one_more_honba().oya_tsumo() == match points.oya_tsumo() {
            Some(paid) => Some(paid + 100),
            None => None,
        },
        points.with_one_more_honba().ko_tsumo() == match points.ko_tsumo() {
            Some((by_ko, by_oya)) => Some((by_ko + 100, by_oya + 100)),
            None => None,
        },
        points.with_one_more_honba().oya_ron() == match points.oya_ron() {
            Some(paid) => Some(paid + 300),
            None => None,
        },
        points.with_one_more_honba().ko_ron() == match points.ko_ron() {
            Some(paid) => Some(paid + 300),
            None => None,
        },
{
}

/// Where han, fu and honbas have points, the same han and fu with one
/// honba more have the same points with one honba more.
pub proof fn lemma_one_more_honba(
    mode: PointsCalculationMode,
    han: Han,
    fu: Fu,
    honbas: Honbas,
    more: Honbas,
)
    requires
        more@ == honbas@ + 1,
        calculated_points(mode, han, fu, honbas) is Ok,
    ensures
        calculated_points(mode, han, fu, more) == Ok::<PointsView, PointCalculationError>(
            calculated_points(mode, han, fu, honbas)->Ok_0.with_one_more_honba(),
        ),
{
}

/// Every type can hold what computing a payment goes through where the
/// base points are within a hundred million of zero and the honbas within a
/// million.
pub proof fn lemma_payment_defined<T: PointsBase>(points: PointsView, factor: int, per_honba: int)
    requires
        1 <= factor <= 6,
        0 <= per_honba <= RON_HONBA_POINTS,
        -100_000_000 <= points.base_points <= 100_000_000,
        -1_000_000 <= points.honbas <= 1_000_000,
    ensures
        points.payment_defined::<T>(factor, per_honba),
{
    let multiple = points.base_points * factor;
    let by_honbas = points.honbas * per_honba;
    assert(-600_000_000 <= multiple <= 600_000_000) by (nonlinear_arith)
        requires
            multiple == points.base_points * factor,
            1 <= factor <= 6,
            -100_000_000 <= points.base_points <= 100_000_000,
    ;
    assert(-300_000_000 <= by_honbas <= 300_000_000) by (nonlinear_arith)
        requires
            by_honbas == points.honbas * per_honba,
            0 <= per_honba <= 300,
            -1_000_000 <= points.honbas <= 1_000_000,
    ;
    lemma_rounded_up_is_least_multiple(multiple, 100);
    T::lemma_i32_representable(multiple);
    T::lemma_i32_representable(multiple + 99);
    T::lemma_i32_representable(points.payment(factor, per_honba));
}

/// In the strict mode the base points of an answer are above zero and no
/// more than those of a yakuman, and the honbas are not negative.
pub proof fn lemma_strict_points_bounded(han: Han, fu: Fu, honbas: Honbas)
    ensures
        match calculated_points(PointsCalculationMode::Default, han, fu, honbas) {
            Ok(points) => 0 < points.base_points <= YAKUMAN_BASE_POINTS && 0 <= points.honbas
                == honbas@,
            Err(_) => true,
        },
{
    if calculated_points(PointsCalculationMode::Default, han, fu, honbas) is Ok && tier_base_points(
        han@,
    ) is None {
        vstd::arithmetic::power::lemma_pow_positive(2, (han@ + 2) as nat);
        assert(0 < fu@ * vstd::arithmetic::power::pow(2, (han@ + 2) as nat)) by (nonlinear_arith)
            requires
                0 < fu@,
                0 < vstd::arithmetic::power::pow(2, (han@ + 2) as nat),
        ;
    }
}

impl<T: PointsBase> PointsCustom<T> {
    /// Constructs an instance of `PointsCustom` by calculating the number of
    /// points for given [`Han`] and [`Fu`] values.
    ///
    /// There are different modes for calculating the points; see
    /// [`PointsCalculationMode`] documentation for more details. In the
    /// strict mode every input has an answer; in the other modes the base
    /// type has to hold what the formula goes through.
    pub fn from_calculated(
        calculation_mode: PointsCalculationMode,
        han: Han,
        fu: Fu,
        honbas: Honbas,
    ) -> (r: Result<Self, PointCalculationError>)
        requires
            calculation_mode != PointsCalculationMode::Default && formula_applies(
                calculation_mode,
                han,
                fu,
                honbas,
            ) ==> formula_defined::<T>(han@, fu@),
        ensures
            match r {
                Ok(points) => calculated_points(calculation_mode, han, fu, honbas) == Ok::<
                    PointsView,
                    PointCalculationError,
                >(points@),
                Err(error) => calculated_points(calculation_mode, han, fu, honbas) == Err::<
                    PointsView,
                    PointCalculationError,
                >(error),
            },
    {
        if calculation_mode == PointsCalculationMode::Default {
            if han.get() < 1 {
                return Err(PointCalculationError::InvalidHan(han));
            }
            if !is_valid_fu(fu) {
                return Err(PointCalculationError::InvalidFu(fu));
            }
            if honbas.get() < 0 {
                return Err(PointCalculationError::InvalidHonbas(honbas));
            }
        }
        if calculation_mode != PointsCalculationMode::Unlimited {
            let han_value = han.get();
            if han_value >= KAZOE_YAKUMAN_HAN {
                return Ok(Self::yakuman(honbas));
            } else if han_value >= SANBAIMAN_HAN {
                return Ok(Self::sanbaiman(honbas));
            } else if han_value >= BAIMAN_HAN {
                return Ok(Self::baiman(honbas));
            } else if han_value >= HANEMAN_HAN {
                return Ok(Self::haneman(honbas));
            } else if han_value >= MANGAN_HAN {
                return Ok(Self::mangan(honbas));
            }
        }
        proof {
            if calculation_mode == PointsCalculationMode::Default {
                lemma_formula_defined_below_mangan::<T>(han@, fu@);
            }
        }
        let points_base: T = formula_points(han, fu);
        if calculation_mode != PointsCalculationMode::Unlimited && points_base.at_least(
            &T::from_i32(MANGAN_THRESHOLD),
        ) {
            Ok(Self::mangan(honbas))
        } else {
            let val_has_tsumo = calculation_mode != PointsCalculationMode::Default || has_tsumo(
                han,
                fu,
            );
            let val_has_ron = calculation_mode != PointsCalculationMode::Default || has_ron(
                han,
                fu,
            );
            Ok(Self::new_calculated(points_base, val_has_tsumo, val_has_ron, honbas))
        }
    }

    /// Constructs a new instance of `PointsCustom`, marking it as limited
    /// (i.e. mangan or above) with given number of honbas.
    pub fn new_limited(base_points: T, honbas: Honbas) -> (r: Self)
        ensures
            r@ == (PointsView {
                base_points: base_points.value(),
                honbas: honbas@,
                mode: PointsMode::Limited,
            }),
    {
        Self { base_points, mode: PointsMode::Limited, honbas }
    }

    /// Constructs a new instance of `PointsCustom` with the base points value
    /// of 2000 and given number of honbas.
    pub fn mangan(honbas: Honbas) -> (r: Self)
        ensures
            r@ == (PointsView { base_points: 2000, honbas: honbas@, mode: PointsMode::Limited }),
    {
        Self::new_limited(T::from_i32(MANGAN_BASE_POINTS), honbas)
    }

    /// Constructs a new instance of `PointsCustom` with the base points value
    /// of 3000 and given number of honbas.
    pub fn haneman(honbas: Honbas) -> (r: Self)
        ensures
            r@ == (PointsView { base_points: 3000, honbas: honbas@, mode: PointsMode::Limited }),
    {
        Self::new_limited(T::from_i32(HANEMAN_BASE_POINTS), honbas)
    }

    /// Constructs a new instance of `PointsCustom` with the base points value
    /// of 4000 and given number of honbas.
    pub fn baiman(honbas: Honbas) -> (r: Self)
        ensures
            r@ == (PointsView { base_points: 4000, honbas: honbas@, mode: PointsMode::Limited }),
    {
        Self::new_limited(T::from_i32(BAIMAN_BASE_POINTS), honbas)
    }

    /// Constructs a new instance of `PointsCustom` with the base points value
    /// of 6000 and given number of honbas.
    pub fn sanbaiman(honbas: Honbas) -> (r: Self)
        ensures
            r@ == (PointsView { base_points: 6000, honbas: honbas@, mode: PointsMode::Limited }),
    {
        Self::new_limited(T::from_i32(SANBAIMAN_BASE_POINTS), honbas)
    }

    /// Constructs a new instance of `PointsCustom` with the base points value
    /// of 8000 and given number of honbas.
    pub fn yakuman(honbas: Honbas) -> (r: Self)
        ensures
            r@ == (PointsView { base_points: 8000, honbas: honbas@, mode: PointsMode::Limited }),
    {
        Self::new_limited(T::from_i32(YAKUMAN_BASE_POINTS), honbas)
    }

    /// Constructs a new instance of `PointsCustom`, marking it as non-limited,
    /// or calculated (i.e. below mangan).
    ///
    /// This method allows to specify whether a value for tsumo and ron is
    /// present with `has_tsumo` and `has_ron` parameters, respectively. The
    /// number of honbas is also required.
    pub fn new_calculated(base_points: T, has_tsumo: bool, has_ron: bool, honbas: Honbas) -> (r:
        Self)
        ensures
            r@ == (PointsView {
                base_points: base_points.value(),
                honbas: honbas@,
                mode: PointsMode::Calculated { has_tsumo, has_ron },
            }),
    {
        Self { base_points, mode: PointsMode::Calculated { has_tsumo, has_ron }, honbas }
    }

    /// Returns true if the instance was constructed as a limited one.
    pub fn is_limited(&self) -> (r: bool)
        ensures
            r == self@.is_limited(),
            r != self@.is_calculated(),
    {
        match self.mode {
            PointsMode::Calculated { .. } => false,
            PointsMode::Limited => true,
        }
    }

    /// Returns true if the instance was constructed as a calculated one.
    pub fn is_calculated(&self) -> (r: bool)
        ensures
            r == self@.is_calculated(),
            r != self@.is_limited(),
    {
        match self.mode {
            PointsMode::Calculated { .. } => true,
            PointsMode::Limited => false,
        }
    }

    /// Returns the number of points paid for the dealer on a win by tsumo.
    pub fn oya_tsumo(&self) -> (r: Option<T>)
        requires
            self@.mode.tsumo() ==> self@.payment_defined::<T>(2, TSUMO_HONBA_POINTS as int),
        ensures
            match self@.oya_tsumo() {
                Some(paid) => r matches Some(value) && value.value() == paid,
                None => r is None,
            },
    {
        if self.mode.has_tsumo() {
            let value = round_up_points(self.base_points.duplicate().mul_i32(2)).add_i32(
                self.tsumo_honba_points(),
            );
            Some(value)
        } else {
            None
        }
    }

    /// Returns the number of points paid for the dealer on a win by ron.
    pub fn oya_ron(&self) -> (r: Option<T>)
        requires
            self@.mode.ron() ==> self@.payment_defined::<T>(6, RON_HONBA_POINTS as int),
        ensures
            match self@.oya_ron() {
                Some(paid) => r matches Some(value) && value.value() == paid,
                None => r is None,
            },
    {
        if self.mode.has_ron() {
            let value = round_up_points(self.base_points.duplicate().mul_i32(6)).add_i32(
                self.ron_honba_points(),
            );
            Some(value)
        } else {
            None
        }
    }

    /// Returns the number of points paid for the non-dealer on a win by
    /// tsumo. The first number is the number of points paid by non-dealers,
    /// and the second is paid by the dealer.
    pub fn ko_tsumo(&self) -> (r: Option<(T, T)>)
        requires
            self@.mode.tsumo() ==> self@.payment_defined::<T>(1, TSUMO_HONBA_POINTS as int)
                && self@.payment_defined::<T>(2, TSUMO_HONBA_POINTS as int),
        ensures
            match self@.ko_tsumo() {
                Some((by_ko, by_oya)) => r matches Some((value_ko, value_oya)) && value_ko.value()
                    == by_ko && value_oya.value() == by_oya,
                None => r is None,
            },
            r matches Some((_, value_oya)) ==> self@.oya_tsumo() == Some(value_oya.value()),
    {
        if self.mode.has_tsumo() {
            let honba_points = self.tsumo_honba_points();
            let value_ko = round_up_points(self.base_points.duplicate()).add_i32(honba_points);
            let value_oya = round_up_points(self.base_points.duplicate().mul_i32(2)).add_i32(
                honba_points,
            );
            Some((value_ko, value_oya))
        } else {
            None
        }
    }

    /// Returns the number of points paid for the non-dealer on a win by ron.
    pub fn ko_ron(&self) -> (r: Option<T>)
        requires
            self@.mode.ron() ==> self@.payment_defined::<T>(4, RON_HONBA_POINTS as int),
        ensures
            match self@.ko_ron() {
                Some(paid) => r matches Some(value) && value.value() == paid,
                None => r is None,
            },
    {
        if self.mode.has_ron() {
            let value = round_up_points(self.base_points.duplicate().mul_i32(4)).add_i32(
                self.ron_honba_points(),
            );
            Some(value)
        } else {
            None
        }
    }

    /// Returns the number of honbas passed when creating the value.
    pub fn honbas(&self) -> (r: Honbas)
        ensures
            r@ == self@.honbas,
    {
        self.honbas
    }

    /// The points that the honbas add to a payment of a win by tsumo.
    fn tsumo_honba_points(&self) -> (r: i32)
        requires
            i32::MIN <= self@.honbas * TSUMO_HONBA_POINTS <= i32::MAX,
        ensures
            r == self@.honbas * TSUMO_HONBA_POINTS,
    {
        self.honbas.get() * TSUMO_HONBA_POINTS
    }

    /// The points that the honbas add to the payment of a win by ron.
    fn ron_honba_points(&self) -> (r: i32)
        requires
            i32::MIN <= self@.honbas * RON_HONBA_POINTS <= i32::MAX,
        ensures
            r == self@.honbas * RON_HONBA_POINTS,
    {
        self.honbas.get() * RON_HONBA_POINTS
    }
}

} // verus!
