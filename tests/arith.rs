use miden_air::arith::{
    are_equal, enforce_constraints, get_constraint_degrees, get_periodic_column_values,
    is_binary, NUM_CONSTRAINTS,
};
use miden_air::degree::ConstraintDegree;
use miden_air::field::{Felt, MODULUS};
use miden_air::frame::{EvaluationFrame, EvaluationFrameExt};
use miden_air::trace::{ARITH_A_COL_IDX, ARITH_TRACE_RANGE, TRACE_WIDTH};

fn frame_of(current_arith: [Felt; 1], next_arith: [Felt; 1]) -> EvaluationFrame {
    let mut current = vec![Felt::zero(); TRACE_WIDTH];
    let mut next = vec![Felt::zero(); TRACE_WIDTH];
    current[ARITH_TRACE_RANGE].copy_from_slice(&current_arith);
    next[ARITH_TRACE_RANGE].copy_from_slice(&next_arith);
    EvaluationFrame::from_rows(current, next)
}

fn get_constraint_evaluation(frame: EvaluationFrame, flag: Felt) -> [Felt; NUM_CONSTRAINTS] {
    let mut result = [Felt::zero(); NUM_CONSTRAINTS];
    enforce_constraints(&frame, &mut result, flag);
    result
}

#[test]
fn test_one_is_one() {
    let mut current = vec![Felt::zero(); TRACE_WIDTH];
    let mut next = vec![Felt::zero(); TRACE_WIDTH];

    // input
    let current_arith = [Felt::one()];
    // output
    let next_arith = [Felt::one()];

    current[ARITH_TRACE_RANGE].copy_from_slice(&current_arith);
    next[ARITH_TRACE_RANGE].copy_from_slice(&next_arith);

    let frame = EvaluationFrame::from_rows(current, next);

    let result = get_constraint_evaluation(frame, Felt::one());
    assert_eq!(result, [Felt::zero(); NUM_CONSTRAINTS]);
}

#[test]
fn test_two_is_not_one() {
    let mut current = vec![Felt::zero(); TRACE_WIDTH];
    let mut next = vec![Felt::zero(); TRACE_WIDTH];

    // input
    let current_arith = [Felt::one()];
    // output
    let next_arith = [Felt::one().add(Felt::one())];

    current[ARITH_TRACE_RANGE].copy_from_slice(&current_arith);
    next[ARITH_TRACE_RANGE].copy_from_slice(&next_arith);

    let frame = EvaluationFrame::from_rows(current, next);

    let result = get_constraint_evaluation(frame, Felt::one());
    assert_ne!(result, [Felt::zero(); NUM_CONSTRAINTS]);
}

#[test]
fn changed_selector_gives_minus_one_in_stability_constraint() {
    let frame = frame_of([Felt::new(1)], [Felt::new(2)]);
    let result = get_constraint_evaluation(frame, Felt::one());
    assert_eq!(result[0].as_int(), 0);
    assert_eq!(result[1].as_int(), MODULUS - 1);
}

#[test]
fn zero_flag_suppresses_changed_selector() {
    let frame = frame_of([Felt::new(1)], [Felt::new(2)]);
    let result = get_constraint_evaluation(frame, Felt::zero());
    assert_eq!(result, [Felt::zero(); NUM_CONSTRAINTS]);
}

#[test]
fn zero_flag_suppresses_non_binary_selector() {
    let frame = frame_of([Felt::new(7)], [Felt::new(123)]);
    let result = get_constraint_evaluation(frame, Felt::zero());
    assert_eq!(result, [Felt::zero(); NUM_CONSTRAINTS]);
}

#[test]
fn non_binary_selector_fails_binary_constraint_only() {
    let frame = frame_of([Felt::new(2)], [Felt::new(2)]);
    let result = get_constraint_evaluation(frame, Felt::one());
    assert_eq!(result[0].as_int(), MODULUS - 2);
    assert_eq!(result[1], Felt::zero());
}

#[test]
fn zero_selector_in_both_rows_is_valid() {
    let frame = frame_of([Felt::new(0)], [Felt::new(0)]);
    let result = get_constraint_evaluation(frame, Felt::one());
    assert_eq!(result, [Felt::zero(); NUM_CONSTRAINTS]);
}

#[test]
fn flag_scales_constraint_values() {
    let frame = frame_of([Felt::new(3)], [Felt::new(1)]);
    let result = get_constraint_evaluation(frame, Felt::new(5));
    // 5 * 3 * (1 - 3) = -30 and 5 * (3 - 1) = 10
    assert_eq!(result[0].as_int(), MODULUS - 30);
    assert_eq!(result[1].as_int(), 10);
}

#[test]
fn slots_past_the_constraints_are_left_alone() {
    let frame = frame_of([Felt::new(1)], [Felt::new(1)]);
    let mut result = [Felt::new(9); NUM_CONSTRAINTS + 2];
    enforce_constraints(&frame, &mut result, Felt::one());
    assert_eq!(result[0], Felt::zero());
    assert_eq!(result[1], Felt::zero());
    assert_eq!(result[2], Felt::new(9));
    assert_eq!(result[3], Felt::new(9));
}

#[test]
fn is_binary_values() {
    assert_eq!(is_binary(Felt::zero()), Felt::zero());
    assert_eq!(is_binary(Felt::one()), Felt::zero());
    assert_eq!(is_binary(Felt::new(2)).as_int(), MODULUS - 2);
    // (-1) * (1 - (-1)) = -2
    assert_eq!(is_binary(Felt::new(MODULUS - 1)).as_int(), MODULUS - 2);
    assert_ne!(is_binary(Felt::new(1 << 32)), Felt::zero());
}

#[test]
fn are_equal_values() {
    assert_eq!(are_equal(Felt::new(4), Felt::new(4)), Felt::zero());
    assert_eq!(are_equal(Felt::new(4), Felt::new(1)).as_int(), 3);
    assert_eq!(are_equal(Felt::new(1), Felt::new(4)).as_int(), MODULUS - 3);
}

#[test]
fn constraint_degrees_are_four_and_three() {
    let degrees = get_constraint_degrees();
    assert_eq!(degrees.len(), NUM_CONSTRAINTS);
    assert_eq!(degrees, vec![ConstraintDegree::new(4), ConstraintDegree::new(3)]);
    assert_eq!(degrees[0].base, 4);
    assert_eq!(degrees[1].base, 3);
}

#[test]
fn no_periodic_columns() {
    assert!(get_periodic_column_values().is_empty());
}

#[test]
fn selector_accessors_read_the_selector_column() {
    let frame = frame_of([Felt::new(6)], [Felt::new(8)]);
    assert_eq!(frame.selector(), Felt::new(6));
    assert_eq!(frame.selector_next(), Felt::new(8));
    assert_eq!(frame.current()[ARITH_A_COL_IDX], Felt::new(6));
    assert_eq!(frame.next()[ARITH_A_COL_IDX], Felt::new(8));
}

#[test]
fn field_arithmetic_is_modular() {
    assert_eq!(Felt::new(MODULUS).as_int(), 0);
    assert_eq!(Felt::new(MODULUS + 5).as_int(), 5);
    assert_eq!(Felt::new(u64::MAX).as_int(), u64::MAX - MODULUS);
    assert_eq!(Felt::new(MODULUS - 1).add(Felt::new(2)).as_int(), 1);
    assert_eq!(Felt::new(3).add(Felt::new(4)).as_int(), 7);
    assert_eq!(Felt::zero().sub(Felt::one()).as_int(), MODULUS - 1);
    assert_eq!(Felt::new(9).sub(Felt::new(4)).as_int(), 5);
    assert_eq!(Felt::new(MODULUS - 1).mul(Felt::new(MODULUS - 1)).as_int(), 1);
    assert_eq!(Felt::new(6).mul(Felt::new(7)).as_int(), 42);
    assert_eq!(Felt::new(1 << 32).mul(Felt::new(1 << 32)).as_int(), (1u64 << 32) - 1);
}
