//! Memory chiplet layout and labels.

use vstd::prelude::*;

verus! {

/// Memory labels: `4 + 8 * is_read + 16 * is_word`.
pub const MEMORY_WRITE_ELEMENT_LABEL: u8 = 4;
pub const MEMORY_READ_ELEMENT_LABEL: u8 = 12;
pub const MEMORY_WRITE_WORD_LABEL: u8 = 20;
pub const MEMORY_READ_WORD_LABEL: u8 = 28;
pub const IS_READ_COL_IDX: usize = 0;
pub const IS_WORD_ACCESS_COL_IDX: usize = 1;
pub const CTX_COL_IDX: usize = 2;
pub const WORD_COL_IDX: usize = 3;
pub const IDX0_COL_IDX: usize = 4;
pub const IDX1_COL_IDX: usize = 5;
pub const CLK_COL_IDX: usize = 6;
pub const V_COL_OFFSET: usize = 7;
pub const D0_COL_IDX: usize = 11;
pub const D1_COL_IDX: usize = 12;
pub const D_INV_COL_IDX: usize = 13;
pub const FLAG_SAME_CONTEXT_AND_WORD: usize = 14;

} // verus!
