//! Bus interaction types, used for domain separation of bus messages.

use vstd::prelude::*;

verus! {

pub const CHIPLETS_BUS: usize = 0;
pub const BLOCK_STACK_TABLE: usize = 1;
pub const BLOCK_HASH_TABLE: usize = 2;
pub const OP_GROUP_TABLE: usize = 3;
pub const STACK_OVERFLOW_TABLE: usize = 4;
pub const SIBLING_TABLE: usize = 5;
pub const LOG_PRECOMPILE_TRANSCRIPT: usize = 6;
pub const RANGE_CHECK_BUS: usize = 7;
pub const ACE_WIRING_BUS: usize = 8;
pub const NUM_BUS_TYPES: usize = 9;

} // verus!
