//! Pure, deterministic health evaluation over a position snapshot.
//!
//! All arithmetic is unsigned, integer-only and division-by-zero safe:
//! the zero-debt case is answered with a sentinel health factor instead
//! of a division. The intermediate products are computed in 128 bits so
//! that no input allowed by the data model can overflow.

use vstd::prelude::*;

verus! {

/// Health factors are scaled by 100: a stored value of 150 means 1.50.
/// A factor below 100 (below 1.0) marks the position as liquidatable.
pub const HEALTH_FACTOR_SCALE: u64 = 100;

/// The largest health factor the evaluator ever reports. It stands in
/// for "infinite" when the position has no debt, and it is the ceiling
/// to which larger quotients saturate, so a caller can treat any value
/// at this ceiling as "no meaningful debt pressure".
pub const HEALTH_FACTOR_CEILING: u64 = 99999;

/// The denominator of the liquidation threshold: thresholds are whole
/// percentages on a 0..=100 scale.
pub const PCT_DENOMINATOR: u64 = 100;

/// The input to evaluation: raw magnitudes in one common unit.
#[derive(Clone, Copy, PartialEq, Eq, Structural, Debug)]
pub struct PositionSnapshot {
    /// Total value of the deposited collateral.
    pub collateral_value: u64,
    /// Total value of the outstanding debt.
    pub debt_value: u64,
    /// Share of the collateral that counts toward borrowing capacity,
    /// as a whole percentage (80 means 80%).
    pub liquidation_threshold_pct: u64,
}

/// The outcome of evaluation.
#[derive(Clone, Copy, PartialEq, Eq, Structural, Debug)]
pub struct HealthResult {
    /// True exactly when the debt exceeds the maximum allowed borrow.
    pub is_liquidatable: bool,
    /// Health factor scaled by [`HEALTH_FACTOR_SCALE`], saturated at
    /// [`HEALTH_FACTOR_CEILING`].
    pub health_factor_scaled: u64,
    /// Amount by which the debt exceeds the maximum allowed borrow;
    /// zero for a healthy position.
    pub shortfall: u64,
}

impl PositionSnapshot {
    /// The data-model invariant: the liquidation threshold is a whole
    /// percentage on the 0..=100 scale.
    pub open spec fn wf(self) -> bool {
        self.liquidation_threshold_pct <= PCT_DENOMINATOR
    }
}

impl HealthResult {
    /// The invariant every evaluation result obeys: a shortfall is only
    /// reported for liquidatable positions, and a liquidatable position
    /// always has a health factor below the 1.0 mark.
    pub open spec fn wf(self) -> bool {
        &&& (self.shortfall > 0 ==> self.is_liquidatable)
        &&& (self.is_liquidatable ==> self.health_factor_scaled < HEALTH_FACTOR_SCALE)
    }
}

/// The maximum amount the position is allowed to borrow:
/// `floor(collateral * threshold / 100)`.
pub open spec fn spec_max_borrow(s: PositionSnapshot) -> int {
    (s.collateral_value * s.liquidation_threshold_pct) / (PCT_DENOMINATOR as int)
}

/// Whether the position is liquidatable: its debt exceeds the maximum
/// allowed borrow. A position with no debt is never liquidatable.
pub open spec fn spec_is_liquidatable(s: PositionSnapshot) -> bool {
    s.debt_value > spec_max_borrow(s)
}

/// The scaled health factor: the zero-debt sentinel, or
/// `floor(max_borrow * 100 / debt)` saturated at the ceiling.
pub open spec fn spec_health_factor(s: PositionSnapshot) -> int {
    if s.debt_value == 0 {
        HEALTH_FACTOR_CEILING as int
    } else {
        let quotient = spec_max_borrow(s) * (HEALTH_FACTOR_SCALE as int) / (s.debt_value as int);
        if quotient >= HEALTH_FACTOR_CEILING as int {
            HEALTH_FACTOR_CEILING as int
        } else {
            quotient
        }
    }
}

/// The shortfall: how far the debt exceeds the maximum allowed borrow.
pub open spec fn spec_shortfall(s: PositionSnapshot) -> int {
    if spec_is_liquidatable(s) {
        s.debt_value - spec_max_borrow(s)
    } else {
        0
    }
}

/// The full evaluation, field by field.
pub open spec fn spec_evaluate(s: PositionSnapshot) -> HealthResult {
    HealthResult {
        is_liquidatable: spec_is_liquidatable(s),
        health_factor_scaled: spec_health_factor(s) as u64,
        shortfall: spec_shortfall(s) as u64,
    }
}

proof fn lemma_max_borrow_bounds(s: PositionSnapshot)
    requires
        s.wf(),
    ensures
        0 <= spec_max_borrow(s) <= s.collateral_value,
{
    let c = s.collateral_value as int;
    let t = s.liquidation_threshold_pct as int;
    assert(c * t >= 0) by (nonlinear_arith)
        requires
            c >= 0,
            t >= 0,
    ;
    assert(c * t <= c * 100) by (nonlinear_arith)
        requires
            c >= 0,
            t <= 100,
    ;
    vstd::arithmetic::div_mod::lemma_div_is_ordered(c * t, c * 100, 100);
    vstd::arithmetic::div_mod::lemma_div_pos_is_pos(c * t, 100);
    assert((c * 100) / 100 == c) by (nonlinear_arith);
}

/// Evaluate the health of a position snapshot. Total and deterministic:
/// every snapshot that obeys the data-model invariant produces exactly
/// the result described by [`spec_evaluate`], and that result obeys the
/// [`HealthResult::wf`] invariant.
pub fn evaluate(snapshot: PositionSnapshot) -> (r: HealthResult)
    requires
        snapshot.wf(),
    ensures
        r == spec_evaluate(snapshot),
        r.wf(),
{
    proof {
        lemma_max_borrow_bounds(snapshot);
    }
    let collateral = snapshot.collateral_value as u128;
    let threshold = snapshot.liquidation_threshold_pct as u128;
    assert(collateral * threshold <= 0xffff_ffff_ffff_ffffu128 * 100) by (nonlinear_arith)
        requires
            collateral <= 0xffff_ffff_ffff_ffffu128,
            threshold <= 100,
    ;
    let max_borrow_wide = (collateral * threshold) / 100;
    let max_borrow = max_borrow_wide as u64;
    if snapshot.debt_value == 0 {
        let r = HealthResult {
            is_liquidatable: false,
            health_factor_scaled: HEALTH_FACTOR_CEILING,
            shortfall: 0,
        };
        proof {
            lemma_liquidation_equivalence(snapshot);
        }
        r
    } else {
        let debt = snapshot.debt_value;
        assert((max_borrow as u128) * (HEALTH_FACTOR_SCALE as u128) <= 0xffff_ffff_ffff_ffffu128
            * 100) by (nonlinear_arith)
            requires
                max_borrow as u128 <= 0xffff_ffff_ffff_ffffu128,
                HEALTH_FACTOR_SCALE == 100,
        ;
        let quotient_wide = (max_borrow as u128) * (HEALTH_FACTOR_SCALE as u128) / (debt as u128);
        let health_factor_scaled = if quotient_wide >= HEALTH_FACTOR_CEILING as u128 {
            HEALTH_FACTOR_CEILING
        } else {
            quotient_wide as u64
        };
        let is_liquidatable = debt > max_borrow;
        let shortfall = if is_liquidatable {
            debt - max_borrow
        } else {
            0
        };
        let r = HealthResult { is_liquidatable, health_factor_scaled, shortfall };
        proof {
            lemma_liquidation_equivalence(snapshot);
        }
        r
    }
}

/// A position with no debt is always healthy: the evaluator reports the
/// sentinel health factor, no liquidation, and no shortfall.
pub proof fn lemma_zero_debt_is_healthy(s: PositionSnapshot)
    requires
        s.wf(),
        s.debt_value == 0,
    ensures
        spec_evaluate(s).health_factor_scaled == HEALTH_FACTOR_CEILING,
        !spec_evaluate(s).is_liquidatable,
        spec_evaluate(s).shortfall == 0,
{
    lemma_max_borrow_bounds(s);
}

/// The three ways of reading an evaluation agree for every snapshot:
/// the liquidation flag is set exactly when the scaled health factor is
/// below the 1.0 mark, and exactly when a positive shortfall is
/// reported. The boundary `debt == max_borrow` is healthy.
pub proof fn lemma_liquidation_equivalence(s: PositionSnapshot)
    requires
        s.wf(),
    ensures
        spec_evaluate(s).is_liquidatable <==> spec_evaluate(s).health_factor_scaled
            < HEALTH_FACTOR_SCALE,
        spec_evaluate(s).is_liquidatable <==> spec_evaluate(s).shortfall > 0,
        spec_evaluate(s).wf(),
{
    lemma_max_borrow_bounds(s);
    let mb = spec_max_borrow(s);
    let debt = s.debt_value as int;
    if debt > 0 {
        let quotient = mb * 100 / debt;
        if debt > mb {
            assert(mb * 100 < debt * 100) by (nonlinear_arith)
                requires
                    mb < debt,
            ;
            vstd::arithmetic::div_mod::lemma_multiply_divide_lt(mb * 100, debt, 100);
            assert(quotient < 100);
        } else {
            assert(debt * 100 <= mb * 100) by (nonlinear_arith)
                requires
                    debt <= mb,
            ;
            vstd::arithmetic::div_mod::lemma_div_is_ordered(debt * 100, mb * 100, debt);
            assert((debt * 100) / debt == 100) by (nonlinear_arith)
                requires
                    debt > 0,
            ;
            assert(quotient >= 100);
        }
    }
}

/// Evaluation is a pure function: any two results obtained from the
/// same snapshot are identical.
pub proof fn lemma_evaluate_deterministic(s: PositionSnapshot, r1: HealthResult, r2: HealthResult)
    requires
        r1 == spec_evaluate(s),
        r2 == spec_evaluate(s),
    ensures
        r1 == r2,
{
}

} // verus!

