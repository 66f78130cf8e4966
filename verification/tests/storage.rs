use axionvera::interfaces::FeeTotals;
use axionvera::storage::{
    current_or_default, get_fee_totals, is_compatible, record_fee_totals, StateError,
    CURRENT_VERSION,
};

#[test]
fn version_helpers_work() {
    assert_eq!(CURRENT_VERSION, 1);
    assert!(is_compatible(1));
    assert!(!is_compatible(2));
}

#[test]
fn current_or_default_prefers_stored_value() {
    assert_eq!(current_or_default(Some(5u32), 9), 5);
    assert_eq!(current_or_default(None, 9u32), 9);
}

#[test]
fn missing_fee_totals_read_as_zero_without_extension() {
    let (totals, extend) = get_fee_totals(None);
    assert_eq!(
        totals,
        FeeTotals { operation_count: 0, collected_amount: 0, treasury_amount: 0 }
    );
    assert!(!extend);
}

#[test]
fn stored_fee_totals_are_read_and_extended() {
    let stored = FeeTotals { operation_count: 2, collected_amount: 30, treasury_amount: 10 };
    assert_eq!(get_fee_totals(Some(stored)), (stored, true));
    let empty = FeeTotals { operation_count: 0, collected_amount: 4, treasury_amount: 1 };
    assert_eq!(get_fee_totals(Some(empty)), (empty, false));
}

#[test]
fn recording_fees_accumulates() {
    let start = FeeTotals { operation_count: 0, collected_amount: 0, treasury_amount: 0 };
    let one = record_fee_totals(start, 100, 25).unwrap();
    assert_eq!(one, FeeTotals { operation_count: 1, collected_amount: 100, treasury_amount: 25 });
    let two = record_fee_totals(one, 50, 5).unwrap();
    assert_eq!(two, FeeTotals { operation_count: 2, collected_amount: 150, treasury_amount: 30 });
    assert!(get_fee_totals(Some(two)).1);
}

#[test]
fn recording_fees_refuses_overflow() {
    let full_count = FeeTotals { operation_count: u64::MAX, collected_amount: 0, treasury_amount: 0 };
    assert_eq!(record_fee_totals(full_count, 1, 1), Err(StateError::InvalidTransition));
    let full_collected = FeeTotals { operation_count: 1, collected_amount: i128::MAX, treasury_amount: 0 };
    assert_eq!(record_fee_totals(full_collected, 1, 0), Err(StateError::InvalidTransition));
    let low_treasury = FeeTotals { operation_count: 1, collected_amount: 0, treasury_amount: i128::MIN };
    assert_eq!(record_fee_totals(low_treasury, 0, -1), Err(StateError::InvalidTransition));
    assert_eq!(
        record_fee_totals(full_collected, -1, 0),
        Ok(FeeTotals { operation_count: 2, collected_amount: i128::MAX - 1, treasury_amount: 0 })
    );
}
