//! Bitwise chiplet layout and labels.

use vstd::prelude::*;

verus! {

/// Label of the bitwise AND operation.
pub const BITWISE_AND_LABEL: u64 = 2;
/// Label of the bitwise XOR operation.
pub const BITWISE_XOR_LABEL: u64 = 6;
pub const OP_FLAG_COL_IDX: usize = 0;
pub const A_COL_IDX: usize = 1;
pub const B_COL_IDX: usize = 2;
pub const A_BITS_OFFSET: usize = 3;
pub const B_BITS_OFFSET: usize = 7;
pub const PREV_OUTPUT_COL_IDX: usize = 11;
pub const OUTPUT_COL_IDX: usize = 12;
/// Number of rows of one bitwise operation.
pub const OP_CYCLE_LEN: usize = 8;

} // verus!
