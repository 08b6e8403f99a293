use vstd::prelude::*;

use crate::field::Felt;
use crate::trace::ARITH_A_COL_IDX;

verus! {

/// Two consecutive rows of the execution trace, over which transition constraints are
/// evaluated.
#[derive(Clone, Debug)]
pub struct EvaluationFrame {
    current: Vec<Felt>,
    next: Vec<Felt>,
}

impl EvaluationFrame {
    /// The current row.
    pub closed spec fn current_row(&self) -> Seq<Felt> {
        self.current@
    }

    /// The next row.
    pub closed spec fn next_row(&self) -> Seq<Felt> {
        self.next@
    }

    /// Both rows are non-empty and of equal width.
    pub open spec fn wf(&self) -> bool {
        self.current_row().len() > 0 && self.current_row().len() == self.next_row().len()
    }

    /// Builds a frame from two rows of the same, non-zero width.
    pub fn from_rows(current: Vec<Felt>, next: Vec<Felt>) -> (r: EvaluationFrame)
        requires
            current@.len() > 0,
            current@.len() == next@.len(),
        ensures
            r.current_row() == current@,
            r.next_row() == next@,
            r.wf(),
    {
        EvaluationFrame { current, next }
    }

    pub fn current(&self) -> (r: &[Felt])
        ensures
            r@ == self.current_row(),
    {
        self.current.as_slice()
    }

    pub fn next(&self) -> (r: &[Felt])
        ensures
            r@ == self.next_row(),
    {
        self.next.as_slice()
    }
}

/// Column accessors of the arithmetic chiplet on an evaluation frame.
pub trait EvaluationFrameExt {
    /// The frame is wide enough to hold the chiplet's selector column.
    spec fn has_selector(&self) -> bool;

    /// Value of the selector column in the current row.
    spec fn spec_selector(&self) -> int;

    /// Value of the selector column in the next row.
    spec fn spec_selector_next(&self) -> int;

    /// Gets the current value of the selector column.
    fn selector(&self) -> (r: Felt)
        requires
            self.has_selector(),
        ensures
            r@ == self.spec_selector(),
    ;

    /// Gets the next value of the selector column.
    fn selector_next(&self) -> (r: Felt)
        requires
            self.has_selector(),
        ensures
            r@ == self.spec_selector_next(),
    ;
}

impl EvaluationFrameExt for EvaluationFrame {
    open spec fn has_selector(&self) -> bool {
        ARITH_A_COL_IDX < self.current_row().len() && ARITH_A_COL_IDX < self.next_row().len()
    }

    open spec fn spec_selector(&self) -> int {
        self.current_row()[ARITH_A_COL_IDX as int]@
    }

    open spec fn spec_selector_next(&self) -> int {
        self.next_row()[ARITH_A_COL_IDX as int]@
    }

    fn selector(&self) -> (r: Felt) {
        self.current()[ARITH_A_COL_IDX]
    }

    fn selector_next(&self) -> (r: Felt) {
        self.next()[ARITH_A_COL_IDX]
    }
}

} // verus!
