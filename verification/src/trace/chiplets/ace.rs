//! ACE chiplet layout and labels.

use vstd::prelude::*;

verus! {

/// Unique label of the ACE operation: selector `[1, 1, 1, 0]` reversed, plus one.
pub const ACE_INIT_LABEL: u64 = 8;
/// Total number of columns of the ACE chiplet.
pub const ACE_CHIPLET_NUM_COLS: usize = 16;
/// Offset of the `ID1` wire when encoding an ACE instruction.
pub const ACE_INSTRUCTION_ID1_OFFSET: u64 = 0x4000_0000;
/// Offset of the `ID2` wire when encoding an ACE instruction.
pub const ACE_INSTRUCTION_ID2_OFFSET: u64 = 0x1000_0000_0000_0000;
pub const SELECTOR_START_IDX: usize = 0;
pub const SELECTOR_BLOCK_IDX: usize = 1;
pub const CTX_IDX: usize = 2;
pub const PTR_IDX: usize = 3;
pub const CLK_IDX: usize = 4;
pub const EVAL_OP_IDX: usize = 5;
pub const ID_0_IDX: usize = 6;
pub const V_0_0_IDX: usize = 7;
pub const V_0_1_IDX: usize = 8;
pub const ID_1_IDX: usize = 9;
pub const V_1_0_IDX: usize = 10;
pub const V_1_1_IDX: usize = 11;
pub const ID_2_IDX: usize = 12;
pub const READ_NUM_EVAL_IDX: usize = 12;
pub const V_2_0_IDX: usize = 13;
pub const V_2_1_IDX: usize = 14;
pub const M_1_IDX: usize = 14;
pub const M_0_IDX: usize = 15;

} // verus!
