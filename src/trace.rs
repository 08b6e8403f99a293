use vstd::prelude::*;

verus! {

/// Number of columns in a row of the execution trace.
pub const TRACE_WIDTH: usize = 1;

/// Index of the first column of the arithmetic chiplet.
pub const ARITH_TRACE_OFFSET: usize = 0;

/// Number of columns owned by the arithmetic chiplet.
pub const ARITH_TRACE_WIDTH: usize = 1;

/// Columns owned by the arithmetic chiplet.
pub const ARITH_TRACE_RANGE: core::ops::Range<usize> = ARITH_TRACE_OFFSET..ARITH_TRACE_OFFSET + ARITH_TRACE_WIDTH;

/// Index of the arithmetic chiplet's selector column.
pub const ARITH_A_COL_IDX: usize = ARITH_TRACE_OFFSET;

/// Number of rows that one operation of the arithmetic chiplet occupies.
pub const OP_CYCLE_LEN: usize = 8;

} // verus!
