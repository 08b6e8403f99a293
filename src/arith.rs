use vstd::prelude::*;
use vstd::arithmetic::div_mod::lemma_fundamental_div_mod_converse;
use vstd::slice::SliceAdditionalExecFns;

use crate::degree::ConstraintDegree;
use crate::field::{fmul, fsub, Felt, MODULUS};
use crate::frame::{EvaluationFrame, EvaluationFrameExt};
use crate::trace::OP_CYCLE_LEN;

verus! {

/// Number of transition constraints of the arithmetic chiplet.
pub const NUM_CONSTRAINTS: usize = 2;

/// `x * (1 - x)`: zero exactly when `x` is zero or one.
pub open spec fn spec_is_binary(x: int) -> int {
    fmul(x, fsub(1, x))
}

/// `a - b`: zero exactly when the two values are equal.
pub open spec fn spec_are_equal(a: int, b: int) -> int {
    fsub(a, b)
}

/// Values of the chiplet's constraints, in output order, for the selector's value in the
/// current and next row and the gating flag.
pub open spec fn constraint_values(current: int, next: int, flag: int) -> Seq<int> {
    seq![fmul(flag, spec_is_binary(current)), fmul(flag, spec_are_equal(current, next))]
}

/// Declared degrees of the chiplet's constraints, in output order.
pub open spec fn spec_constraint_degrees() -> Seq<ConstraintDegree> {
    seq![ConstraintDegree { base: 4 }, ConstraintDegree { base: 3 }]
}

/// Returns `x * (1 - x)`.
pub fn is_binary(x: Felt) -> (r: Felt)
    ensures
        r@ == spec_is_binary(x@),
{
    x.mul(Felt::one().sub(x))
}

/// Returns `a - b`.
pub fn are_equal(a: Felt, b: Felt) -> (r: Felt)
    ensures
        r@ == spec_are_equal(a@, b@),
{
    a.sub(b)
}

/// The chiplet uses no periodic columns.
pub fn get_periodic_column_values() -> (r: Vec<Vec<Felt>>)
    ensures
        r@.len() == 0,
        forall|i: int| 0 <= i < r@.len() ==> (#[trigger] r@[i])@.len() == OP_CYCLE_LEN,
{
    Vec::new()
}

/// Degrees of the chiplet's constraints, one record per constraint in output order.
pub fn get_constraint_degrees() -> (r: Vec<ConstraintDegree>)
    ensures
        r@ == spec_constraint_degrees(),
        r@.len() == NUM_CONSTRAINTS,
{
    let r = vec![ConstraintDegree::new(4), ConstraintDegree::new(3)];
    assert(r@ =~= spec_constraint_degrees());
    r
}

/// Writes the chiplet's constraint values for `frame`, each scaled by `processor_flag`, into
/// the first `NUM_CONSTRAINTS` slots of `result`, and leaves the other slots as they were.
pub fn enforce_constraints(frame: &EvaluationFrame, result: &mut [Felt], processor_flag: Felt)
    requires
        frame.has_selector(),
        old(result)@.len() >= NUM_CONSTRAINTS,
    ensures
        final(result)@.len() == old(result)@.len(),
        forall|i: int|
            0 <= i < NUM_CONSTRAINTS ==> (#[trigger] final(result)@[i])@ == constraint_values(
                frame.spec_selector(),
                frame.spec_selector_next(),
                processor_flag@,
            )[i],
        forall|i: int|
            NUM_CONSTRAINTS <= i < old(result)@.len() ==> #[trigger] final(result)@[i]
                == old(result)@[i],
{
    let current = frame.selector();
    let next = frame.selector_next();
    let mut index: usize = 0;

    result.set(index, processor_flag.mul(is_binary(current)));
    index += 1;

    result.set(index, processor_flag.mul(are_equal(current, next)));
}

/// A value that is zero or one satisfies the binary constraint.
pub proof fn lemma_is_binary_of_binary(x: Felt)
    requires
        x@ == 0 || x@ == 1,
    ensures
        spec_is_binary(x@) == 0,
{
}

/// A value in `2..=2^32` does not satisfy the binary constraint.
pub proof fn lemma_is_binary_small_nonbinary(x: Felt)
    requires
        2 <= x@ <= 0x1_0000_0000,
    ensures
        spec_is_binary(x@) != 0,
{
    let m = MODULUS as int;
    let v = x@;
    lemma_fundamental_div_mod_converse(1 - v, m, -1, m + 1 - v);
    assert(v * (m + 1 - v) == (v - 1) * m + (m + v - v * v)) by (nonlinear_arith);
    assert(v * v - v <= 0x1_0000_0000 * 0xFFFF_FFFF) by (nonlinear_arith)
        requires
            2 <= v <= 0x1_0000_0000,
    ;
    assert(v * v - v >= 2) by (nonlinear_arith)
        requires
            v >= 2,
    ;
    lemma_fundamental_div_mod_converse(v * (m + 1 - v), m, v - 1, m + v - v * v);
}

/// The value `-k`, for `k` in `1..2^32`, does not satisfy the binary constraint.
pub proof fn lemma_is_binary_negative_small_nonbinary(x: Felt)
    requires
        MODULUS - 0xFFFF_FFFF <= x@ < MODULUS,
    ensures
        spec_is_binary(x@) != 0,
{
    let m = MODULUS as int;
    let v = x@;
    let k = m - v;
    lemma_fundamental_div_mod_converse(1 - v, m, -1, k + 1);
    assert(v * (k + 1) == k * m + (m - k * k - k)) by (nonlinear_arith)
        requires
            k == m - v,
    ;
    assert(k * k <= 0xFFFF_FFFF * 0xFFFF_FFFF) by (nonlinear_arith)
        requires
            0 <= k <= 0xFFFF_FFFF,
    ;
    assert(k * k >= 1) by (nonlinear_arith)
        requires
            k >= 1,
    ;
    lemma_fundamental_div_mod_converse(v * (k + 1), m, k, m - k * k - k);
}

/// With the gating flag equal to one and the selector equal to one in both rows, every
/// constraint evaluates to zero.
pub proof fn lemma_constant_selector_is_valid(frame: EvaluationFrame, processor_flag: Felt)
    requires
        frame.has_selector(),
        frame.spec_selector() == 1,
        frame.spec_selector_next() == 1,
        processor_flag@ == 1,
    ensures
        constraint_values(frame.spec_selector(), frame.spec_selector_next(), processor_flag@)
            =~= seq![0int, 0int],
{
}

/// With the gating flag equal to one, a selector that goes from one to two makes some
/// constraint non-zero: the stability constraint evaluates to `-1`.
pub proof fn lemma_changed_selector_is_invalid(frame: EvaluationFrame, processor_flag: Felt)
    requires
        frame.has_selector(),
        frame.spec_selector() == 1,
        frame.spec_selector_next() == 2,
        processor_flag@ == 1,
    ensures
        constraint_values(frame.spec_selector(), frame.spec_selector_next(), processor_flag@)[1]
            == MODULUS - 1,
        constraint_values(frame.spec_selector(), frame.spec_selector_next(), processor_flag@)
            != seq![0int, 0int],
{
    let m = MODULUS as int;
    lemma_fundamental_div_mod_converse(-1, m, -1, m - 1);
    let vals = constraint_values(frame.spec_selector(), frame.spec_selector_next(), processor_flag@);
    assert(vals[1] != seq![0int, 0int][1]);
}

/// With the gating flag equal to zero, every constraint evaluates to zero, whatever the
/// selector holds.
pub proof fn lemma_inactive_chiplet_is_vacuous(frame: EvaluationFrame, processor_flag: Felt)
    requires
        frame.has_selector(),
        processor_flag@ == 0,
    ensures
        constraint_values(frame.spec_selector(), frame.spec_selector_next(), processor_flag@)
            =~= seq![0int, 0int],
{
}

} // verus!
