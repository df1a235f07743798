//! Layout of helper registers and stack words used by `log_precompile`.

use vstd::prelude::*;

verus! {

pub const HELPER_ADDR_IDX: usize = 0;
pub const HELPER_CAP_PREV_OFFSET: usize = 1;
pub const STACK_R0_BASE: usize = 0;
pub const STACK_R1_BASE: usize = 4;
pub const STACK_CAP_NEXT_BASE: usize = 8;
pub const STACK_COMM_BASE: usize = STACK_R0_BASE;
pub const STACK_TAG_BASE: usize = STACK_R1_BASE;

} // verus!
