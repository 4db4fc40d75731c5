use sui_invariant_monitor::{
    AccountingBalanceIntegrity, CollateralizationRatio, InterestMonotonicity, Invariant, InvariantEngine,
    InvariantStatus, LiquidityConstraint, ProtocolState, TotalSupplyConservation,
};

fn input<'a>(result: &'a sui_invariant_monitor::InvariantResult, key: &str) -> &'a str {
    result
        .computation
        .inputs
        .iter()
        .find(|(k, _)| k == key)
        .map(|(_, v)| v.as_str())
        .expect("input present")
}

#[test]
fn test_default_state() {
    let state = ProtocolState::default();
    assert_eq!(state.total_supply, 0);
    assert_eq!(state.interest_index, 1_000_000_000);
}

#[test]
fn test_accounting_match() {
    let state = ProtocolState { total_reserves: 1_000_000, on_chain_balance: 1_000_000, ..Default::default() };
    let inv = AccountingBalanceIntegrity;
    let result = inv.evaluate(&state, None);
    assert_eq!(result.status, InvariantStatus::Holds);
}

#[test]
fn test_accounting_mismatch() {
    let state = ProtocolState { total_reserves: 1_000_000, on_chain_balance: 900_000, ..Default::default() };
    let inv = AccountingBalanceIntegrity;
    let result = inv.evaluate(&state, None);
    assert_eq!(result.status, InvariantStatus::Violated);
}

#[test]
fn test_collateralization_ok() {
    let state = ProtocolState { total_borrowed: 1_000_000, collateral_value: 1_600_000, ..Default::default() };
    let inv = CollateralizationRatio;
    let result = inv.evaluate(&state, None);
    assert_eq!(result.status, InvariantStatus::Holds);
}

#[test]
fn test_collateralization_violated() {
    let state = ProtocolState { total_borrowed: 1_000_000, collateral_value: 1_400_000, ..Default::default() };
    let inv = CollateralizationRatio;
    let result = inv.evaluate(&state, None);
    assert_eq!(result.status, InvariantStatus::Violated);
}

#[test]
fn test_no_borrows() {
    let state = ProtocolState { total_borrowed: 0, collateral_value: 0, ..Default::default() };
    let inv = CollateralizationRatio;
    let result = inv.evaluate(&state, None);
    assert_eq!(result.status, InvariantStatus::Holds);
}

#[test]
fn test_interest_increasing() {
    let prev = ProtocolState { interest_index: 1_000_000_000, ..Default::default() };
    let current = ProtocolState { interest_index: 1_010_000_000, ..Default::default() };
    let inv = InterestMonotonicity;
    let result = inv.evaluate(&current, Some(&prev));
    assert_eq!(result.status, InvariantStatus::Holds);
}

#[test]
fn test_interest_decreasing() {
    let prev = ProtocolState { interest_index: 1_010_000_000, ..Default::default() };
    let current = ProtocolState { interest_index: 1_000_000_000, ..Default::default() };
    let inv = InterestMonotonicity;
    let result = inv.evaluate(&current, Some(&prev));
    assert_eq!(result.status, InvariantStatus::Violated);
}

#[test]
fn test_no_previous_state() {
    let current = ProtocolState { interest_index: 1_000_000_000, ..Default::default() };
    let inv = InterestMonotonicity;
    let result = inv.evaluate(&current, None);
    assert_eq!(result.status, InvariantStatus::Holds);
}

#[test]
fn test_liquidity_ok() {
    let state = ProtocolState { total_supply: 1_000_000, total_borrowed: 800_000, ..Default::default() };
    let inv = LiquidityConstraint;
    let result = inv.evaluate(&state, None);
    assert_eq!(result.status, InvariantStatus::Holds);
}

#[test]
fn test_over_borrowed() {
    let state = ProtocolState { total_supply: 1_000_000, total_borrowed: 1_100_000, ..Default::default() };
    let inv = LiquidityConstraint;
    let result = inv.evaluate(&state, None);
    assert_eq!(result.status, InvariantStatus::Violated);
}

#[test]
fn test_empty_pool() {
    let state = ProtocolState { total_supply: 0, total_borrowed: 0, ..Default::default() };
    let inv = LiquidityConstraint;
    let result = inv.evaluate(&state, None);
    assert_eq!(result.status, InvariantStatus::Holds);
}

#[test]
fn test_supply_conservation_ok() {
    let state = ProtocolState { total_supply: 1000, total_reserves: 400, total_borrowed: 600, ..Default::default() };
    let inv = TotalSupplyConservation;
    let result = inv.evaluate(&state, None);
    assert_eq!(result.status, InvariantStatus::Holds);
}

#[test]
fn test_supply_conservation_violated() {
    let state = ProtocolState { total_supply: 1000, total_reserves: 400, total_borrowed: 500, ..Default::default() };
    let inv = TotalSupplyConservation;
    let result = inv.evaluate(&state, None);
    assert_eq!(result.status, InvariantStatus::Violated);
}

#[test]
fn test_engine_evaluates_all() {
    let mut engine = InvariantEngine::new();
    let state = ProtocolState::default();
    let results = engine.evaluate_all(&state);
    assert_eq!(results.len(), 5);
}

#[test]
fn test_violation_detection() {
    let mut engine = InvariantEngine::new();
    let state = ProtocolState {
        total_supply: 1000,
        total_reserves: 400,
        total_borrowed: 600,
        collateral_value: 500,
        on_chain_balance: 400,
        ..Default::default()
    };
    let results = engine.evaluate_all(&state);
    assert!(InvariantEngine::violation_count(&results) > 0);
}

fn scenario_a() -> ProtocolState {
    ProtocolState {
        total_supply: 1000,
        total_reserves: 400,
        total_borrowed: 600,
        collateral_value: 900,
        on_chain_balance: 400,
        ..Default::default()
    }
}

#[test]
fn scenario_a_all_checks_hold_at_exactly_150_percent() {
    let mut engine = InvariantEngine::new();
    let results = engine.evaluate_all(&scenario_a());
    let ids: Vec<&str> = results.iter().map(|r| r.id.as_str()).collect();
    assert_eq!(ids, vec!["INV-001", "INV-002", "INV-003", "INV-004", "INV-005"]);
    for r in &results {
        assert_eq!(r.status, InvariantStatus::Holds, "{}", r.id);
        assert!(r.violation_reason.is_none());
    }
    assert_eq!(results[0].computation.result, "1000 == 1000");
    assert_eq!(results[1].computation.result, "900 >= 900 (150% >= 150%)");
    assert_eq!(results[2].computation.result, "400 == 400");
    assert_eq!(results[4].computation.result, "600 <= 1000 (60% utilization)");
    assert!(InvariantEngine::all_ok(&results));
    assert_eq!(InvariantEngine::violation_count(&results), 0);
    assert_eq!(InvariantEngine::error_count(&results), 0);
}

#[test]
fn scenario_b_under_collateralized_reason() {
    let state = ProtocolState { collateral_value: 800, ..scenario_a() };
    let result = CollateralizationRatio.evaluate(&state, None);
    assert_eq!(result.status, InvariantStatus::Violated);
    assert_eq!(result.violation_reason.as_deref(), Some("Under-collateralized: 133% < 150% minimum"));
    assert_eq!(input(&result, "required_collateral"), "900");
    assert_eq!(input(&result, "current_ratio_percent"), "133");
    assert_eq!(input(&result, "min_ratio_percent"), "150");
    assert_eq!(result.computation.result, "800 < 900 (133% < 150%)");
}

#[test]
fn scenario_c_interest_drop_across_cycles() {
    let mut engine = InvariantEngine::new();
    let first = ProtocolState { interest_index: 1_000_000_000, ..scenario_a() };
    let second = ProtocolState { interest_index: 999_000_000, ..scenario_a() };
    let round1 = engine.evaluate_all(&first);
    assert_eq!(round1[3].status, InvariantStatus::Holds);
    assert_eq!(round1[3].computation.result, "First evaluation - no previous state to compare");
    assert_eq!(engine.previous_state, Some(first));
    let round2 = engine.evaluate_all(&second);
    assert_eq!(round2[3].status, InvariantStatus::Violated);
    assert_eq!(
        round2[3].violation_reason.as_deref(),
        Some("Interest index decreased: 1000000000 -> 999000000 (delta: 1000000)")
    );
    assert_eq!(input(&round2[3], "delta"), "0");
    assert_eq!(InvariantEngine::violation_count(&round2), 1);
    assert_eq!(InvariantEngine::get_violations(&round2).len(), 1);
    assert_eq!(InvariantEngine::get_violations(&round2)[0].id, "INV-004");
}

#[test]
fn empty_registry_gives_empty_round_that_is_not_ok() {
    let mut engine: InvariantEngine = InvariantEngine::with_invariants(Vec::new());
    let results = engine.evaluate_all(&scenario_a());
    assert!(results.is_empty());
    assert!(!InvariantEngine::all_ok(&results));
    assert_eq!(engine.previous_state, Some(scenario_a()));
}

#[test]
fn supply_check_saturates_at_maximum() {
    let state = ProtocolState { total_supply: u128::MAX, total_reserves: u128::MAX, total_borrowed: 1, ..Default::default() };
    let result = TotalSupplyConservation.evaluate(&state, None);
    assert_eq!(result.status, InvariantStatus::Holds);
    assert_eq!(input(&result, "expected"), u128::MAX.to_string());
    let state = ProtocolState { total_supply: u128::MAX - 1, ..state };
    let result = TotalSupplyConservation.evaluate(&state, None);
    assert_eq!(result.status, InvariantStatus::Violated);
    assert_eq!(
        result.violation_reason.as_deref(),
        Some("Supply mismatch: actual 340282366920938463463374607431768211454 != expected 340282366920938463463374607431768211455")
    );
}

#[test]
fn collateral_with_no_borrows_holds_for_any_collateral() {
    for collateral in [0u128, 1, 999, u128::MAX] {
        let state = ProtocolState { collateral_value: collateral, total_borrowed: 0, ..Default::default() };
        let result = CollateralizationRatio.evaluate(&state, None);
        assert_eq!(result.status, InvariantStatus::Holds);
        assert_eq!(result.computation.result, "No borrows outstanding - OK");
    }
}

#[test]
fn collateral_requirement_floors_odd_borrows() {
    // 150% of one unit is floored to one unit, so one unit of collateral passes.
    let state = ProtocolState { collateral_value: 1, total_borrowed: 1, ..Default::default() };
    let result = CollateralizationRatio.evaluate(&state, None);
    assert_eq!(result.status, InvariantStatus::Holds);
    assert_eq!(input(&result, "required_collateral"), "1");
    let state = ProtocolState { collateral_value: 2, total_borrowed: 2, ..Default::default() };
    let result = CollateralizationRatio.evaluate(&state, None);
    assert_eq!(result.status, InvariantStatus::Violated);
}

#[test]
fn interest_equal_index_holds() {
    let prev = ProtocolState { interest_index: 5, ..Default::default() };
    let result = InterestMonotonicity.evaluate(&prev, Some(&prev));
    assert_eq!(result.status, InvariantStatus::Holds);
    assert_eq!(input(&result, "delta"), "0");
    assert_eq!(result.computation.result, "5 >= 5");
}

#[test]
fn interest_first_check_marks_previous_as_unavailable() {
    let current = ProtocolState { interest_index: 1, ..Default::default() };
    let result = InterestMonotonicity.evaluate(&current, None);
    assert_eq!(input(&result, "previous_index"), "N/A (first check)");
    assert_eq!(input(&result, "current_index"), "1");
}

#[test]
fn liquidity_available_and_utilization() {
    let state = ProtocolState { total_supply: 3, total_borrowed: 5, ..Default::default() };
    let result = LiquidityConstraint.evaluate(&state, None);
    assert_eq!(result.status, InvariantStatus::Violated);
    assert_eq!(input(&result, "available_liquidity"), "0");
    assert_eq!(input(&result, "utilization_percent"), "166");
    assert_eq!(result.violation_reason.as_deref(), Some("Over-borrowed: 5 > 3 (negative liquidity)"));
    let state = ProtocolState { total_supply: 0, total_borrowed: 1, ..Default::default() };
    let result = LiquidityConstraint.evaluate(&state, None);
    assert_eq!(input(&result, "utilization_percent"), u128::MAX.to_string());
    let state = ProtocolState { total_supply: 10, total_borrowed: 4, ..Default::default() };
    let result = LiquidityConstraint.evaluate(&state, None);
    assert_eq!(input(&result, "available_liquidity"), "6");
}

#[test]
fn accounting_reports_absolute_difference() {
    let state = ProtocolState { total_reserves: 900, on_chain_balance: 1000, ..Default::default() };
    let result = AccountingBalanceIntegrity.evaluate(&state, None);
    assert_eq!(input(&result, "difference"), "100");
    assert_eq!(result.violation_reason.as_deref(), Some("Balance mismatch: internal 900 != on-chain 1000"));
    let state = ProtocolState { total_reserves: 1000, on_chain_balance: 900, ..Default::default() };
    let result = AccountingBalanceIntegrity.evaluate(&state, None);
    assert_eq!(input(&result, "difference"), "100");
}

#[test]
fn error_result_carries_message_twice() {
    let r = sui_invariant_monitor::InvariantResult::error("X", "n", "d", "boom");
    assert_eq!(r.status, InvariantStatus::Error);
    assert_eq!(r.computation.result, "Error: boom");
    assert_eq!(r.violation_reason.as_deref(), Some("boom"));
    let results = vec![r];
    assert_eq!(InvariantEngine::error_count(&results), 1);
    assert!(!InvariantEngine::all_ok(&results));
}

#[test]
fn engine_runs_a_registry_of_one_check_type() {
    let mut engine = InvariantEngine::with_invariants(vec![LiquidityConstraint, LiquidityConstraint]);
    let state = ProtocolState { total_supply: 1, total_borrowed: 2, ..Default::default() };
    let results = engine.evaluate_all(&state);
    assert_eq!(results.len(), 2);
    assert!(results.iter().all(|r| r.status == InvariantStatus::Violated && r.id == "INV-005"));
    assert_eq!(engine.previous_state, Some(state));
}
