use arc_lend::health::evaluate;
use arc_lend::health::HealthResult;
use arc_lend::health::PositionSnapshot;
use arc_lend::health::HEALTH_FACTOR_CEILING;

fn snapshot(collateral_value: u64, debt_value: u64, liquidation_threshold_pct: u64) -> PositionSnapshot {
    PositionSnapshot { collateral_value, debt_value, liquidation_threshold_pct }
}

#[test]
fn boundary_debt_equals_max_borrow_is_healthy() {
    let r = evaluate(snapshot(1000, 800, 80));
    assert_eq!(r.is_liquidatable, false);
    assert_eq!(r.health_factor_scaled, 100);
    assert_eq!(r.shortfall, 0);
}

#[test]
fn one_over_max_borrow_is_liquidatable() {
    let r = evaluate(snapshot(1000, 801, 80));
    assert_eq!(r.is_liquidatable, true);
    assert_eq!(r.health_factor_scaled, 99);
    assert_eq!(r.shortfall, 1);
}

#[test]
fn zero_collateral_zero_debt_takes_sentinel_path() {
    let r = evaluate(snapshot(0, 0, 80));
    assert_eq!(r.is_liquidatable, false);
    assert_eq!(r.health_factor_scaled, HEALTH_FACTOR_CEILING);
    assert_eq!(r.shortfall, 0);
}

#[test]
fn zero_debt_with_collateral_takes_sentinel_path() {
    let r = evaluate(snapshot(123_456, 0, 80));
    assert_eq!(r.is_liquidatable, false);
    assert_eq!(r.health_factor_scaled, HEALTH_FACTOR_CEILING);
    assert_eq!(r.shortfall, 0);
}

#[test]
fn zero_collateral_with_debt_is_fully_short() {
    let r = evaluate(snapshot(0, 500, 80));
    assert_eq!(r.is_liquidatable, true);
    assert_eq!(r.health_factor_scaled, 0);
    assert_eq!(r.shortfall, 500);
}

#[test]
fn healthy_position_reports_scaled_factor() {
    // max_borrow = 2000 * 80 / 100 = 1600; hf = 1600 * 100 / 1000 = 160.
    let r = evaluate(snapshot(2000, 1000, 80));
    assert_eq!(r.is_liquidatable, false);
    assert_eq!(r.health_factor_scaled, 160);
    assert_eq!(r.shortfall, 0);
}

#[test]
fn division_truncates_toward_zero() {
    // max_borrow = floor(999 * 80 / 100) = 799; hf = floor(79900 / 800) = 99.
    let r = evaluate(snapshot(999, 800, 80));
    assert_eq!(r.health_factor_scaled, 99);
    assert_eq!(r.is_liquidatable, true);
    assert_eq!(r.shortfall, 1);
}

#[test]
fn zero_threshold_makes_any_debt_liquidatable() {
    let r = evaluate(snapshot(1_000_000, 1, 0));
    assert_eq!(r.is_liquidatable, true);
    assert_eq!(r.health_factor_scaled, 0);
    assert_eq!(r.shortfall, 1);
}

#[test]
fn largest_collateral_does_not_overflow() {
    // The intermediate product collateral * threshold needs more than
    // 64 bits here; the result must still be exact.
    let r = evaluate(snapshot(u64::MAX, u64::MAX, 100));
    assert_eq!(r.is_liquidatable, false);
    assert_eq!(r.health_factor_scaled, 100);
    assert_eq!(r.shortfall, 0);
}

#[test]
fn largest_collateral_with_partial_threshold() {
    // max_borrow = floor(u64::MAX * 80 / 100).
    let expected_max_borrow = (u64::MAX as u128 * 80 / 100) as u64;
    let r = evaluate(snapshot(u64::MAX, expected_max_borrow + 1, 80));
    assert_eq!(r.is_liquidatable, true);
    assert_eq!(r.shortfall, 1);
    assert_eq!(r.health_factor_scaled, 99);
}

#[test]
fn huge_factor_saturates_at_ceiling() {
    // max_borrow = 8 * 10^18; debt of 1 would give a factor of 8 * 10^20,
    // far over the ceiling, so the ceiling is reported.
    let r = evaluate(snapshot(10_000_000_000_000_000_000, 1, 80));
    assert_eq!(r.is_liquidatable, false);
    assert_eq!(r.health_factor_scaled, HEALTH_FACTOR_CEILING);
    assert_eq!(r.shortfall, 0);
}

#[test]
fn evaluate_is_deterministic() {
    let s = snapshot(31_415, 9_265, 35);
    let r1 = evaluate(s);
    let r2 = evaluate(s);
    assert_eq!(r1, r2);
}

#[test]
fn flag_factor_and_shortfall_agree_across_inputs() {
    let collaterals = [0u64, 1, 99, 100, 1000, 12_345, u64::MAX];
    let debts = [0u64, 1, 79, 80, 800, 801, 9_999, u64::MAX];
    let thresholds = [0u64, 1, 50, 80, 99, 100];
    for &c in collaterals.iter() {
        for &d in debts.iter() {
            for &t in thresholds.iter() {
                let r = evaluate(snapshot(c, d, t));
                assert_eq!(r.is_liquidatable, r.health_factor_scaled < 100);
                assert_eq!(r.is_liquidatable, r.shortfall > 0);
            }
        }
    }
}

#[test]
fn result_struct_compares_by_fields() {
    let a = HealthResult { is_liquidatable: false, health_factor_scaled: 100, shortfall: 0 };
    let b = evaluate(snapshot(1000, 800, 80));
    assert_eq!(a, b);
}
