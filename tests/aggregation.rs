use sui_invariant_monitor::{Invariant, InvariantComputation, RawField, RawRecord, RawValue, StateAggregator};

fn field(name: &str, value: RawValue) -> RawField {
    RawField { name: name.to_string(), value }
}

fn text(s: &str) -> RawValue {
    RawValue::Text(s.to_string())
}

#[test]
fn aggregate_reads_text_and_numbers() {
    let records = vec![RawRecord {
        fields: vec![
            field("total_supply", text("340282366920938463463374607431768211455")),
            field("total_borrowed", RawValue::Unsigned(600)),
            field("total_reserves", text("+400")),
            field("collateral_value", text("900")),
            field("outstanding_shares", RawValue::Unsigned(7)),
            field("interest_index", text("1010000000")),
            field("last_update_epoch", text("42")),
            field("unrelated", text("5")),
        ],
    }];
    let state = StateAggregator::aggregate(&records, 400).expect("aggregation never fails");
    assert_eq!(state.total_supply, u128::MAX);
    assert_eq!(state.total_borrowed, 600);
    assert_eq!(state.total_reserves, 400);
    assert_eq!(state.collateral_value, 900);
    assert_eq!(state.outstanding_shares, 7);
    assert_eq!(state.interest_index, 1_010_000_000);
    assert_eq!(state.last_update_epoch, 42);
    assert_eq!(state.on_chain_balance, 400);
}

#[test]
fn aggregate_with_no_records_is_blank() {
    let state = StateAggregator::aggregate_at(&[], 17, 1234);
    assert_eq!(state.timestamp, 1234);
    assert_eq!(state.on_chain_balance, 17);
    assert_eq!(state.total_supply, 0);
    assert_eq!(state.total_borrowed, 0);
    assert_eq!(state.interest_index, 1_000_000_000);
    assert_eq!(state.last_update_epoch, 0);
}

#[test]
fn aggregate_ignores_malformed_fields() {
    let records = vec![
        RawRecord { fields: vec![field("total_supply", text("1000")), field("last_update_epoch", text("9"))] },
        RawRecord {
            fields: vec![
                field("total_supply", text("12x")),
                field("total_borrowed", text("-5")),
                field("total_reserves", RawValue::Other),
                field("last_update_epoch", text("18446744073709551616")),
                field("interest_index", text("")),
                field("collateral_value", text(" 3")),
            ],
        },
    ];
    let state = StateAggregator::aggregate_at(&records, 0, 0);
    assert_eq!(state.total_supply, 1000);
    assert_eq!(state.total_borrowed, 0);
    assert_eq!(state.total_reserves, 0);
    assert_eq!(state.last_update_epoch, 9);
    assert_eq!(state.interest_index, 1_000_000_000);
    assert_eq!(state.collateral_value, 0);
}

#[test]
fn aggregate_later_record_wins() {
    let records = vec![
        RawRecord { fields: vec![field("total_supply", text("1")), field("total_borrowed", text("2"))] },
        RawRecord { fields: vec![field("total_supply", RawValue::Unsigned(3))] },
    ];
    let state = StateAggregator::aggregate_at(&records, 0, 0);
    assert_eq!(state.total_supply, 3);
    assert_eq!(state.total_borrowed, 2);
}

#[test]
fn first_field_of_a_name_counts() {
    let record = RawRecord { fields: vec![field("total_supply", text("5")), field("total_supply", text("6"))] };
    assert_eq!(StateAggregator::extract_u128(&record, "total_supply"), Some(5));
    assert_eq!(StateAggregator::extract_u128(&record, "missing"), None);
    assert_eq!(StateAggregator::extract_u64(&record, "total_supply"), Some(5));
}

fn one_field(value: &str) -> RawRecord {
    RawRecord { fields: vec![field("v", text(value))] }
}

#[test]
fn decimal_rendering() {
    let render = |n: u128| {
        let state = sui_invariant_monitor::ProtocolState { total_reserves: n, on_chain_balance: n, ..Default::default() };
        let result = sui_invariant_monitor::AccountingBalanceIntegrity.evaluate(&state, None);
        result.computation.inputs[0].1.clone()
    };
    assert_eq!(render(0), "0");
    assert_eq!(render(1234), "1234");
    assert_eq!(render(u128::MAX), "340282366920938463463374607431768211455");
}

#[test]
fn unsigned_parsing() {
    let as_u128 = |s: &str| StateAggregator::extract_u128(&one_field(s), "v");
    let as_u64 = |s: &str| StateAggregator::extract_u64(&one_field(s), "v");
    assert_eq!(as_u128("+17"), Some(17));
    assert_eq!(as_u128("0017"), Some(17));
    assert_eq!(as_u128("-1"), None);
    assert_eq!(as_u128("+"), None);
    assert_eq!(as_u128("340282366920938463463374607431768211456"), None);
    assert_eq!(as_u64("18446744073709551615"), Some(u64::MAX));
    assert_eq!(as_u64("18446744073709551616"), None);
    assert_eq!(as_u64("1_000"), None);
}

#[test]
fn computation_builder_keeps_order_and_overwrites() {
    let c = InvariantComputation::new("a <= b")
        .with_input("a", "1")
        .with_input("b", "2")
        .with_input("a", "3")
        .with_result("3 > 2");
    assert_eq!(c.formula, "a <= b");
    assert_eq!(c.result, "3 > 2");
    assert_eq!(c.inputs, vec![("a".to_string(), "3".to_string()), ("b".to_string(), "2".to_string())]);
    let empty = InvariantComputation::new("f");
    assert!(empty.inputs.is_empty());
    assert_eq!(empty.result, "");
}
