//! Hasher chiplet layout and labels.

use vstd::prelude::*;

verus! {

/// Number of rows of one permutation cycle.
pub const HASH_CYCLE_LEN: usize = 32;
/// Width of the permutation state.
pub const STATE_WIDTH: usize = 12;
pub const RATE_LEN: usize = 8;
pub const DIGEST_LEN: usize = 4;
pub const CAPACITY_LEN: usize = 4;
/// Number of hasher selector columns.
pub const NUM_SELECTORS: usize = 3;
/// Column of the first state element within the hasher columns.
pub const STATE_COL_OFFSET: usize = NUM_SELECTORS;
/// Column of the node index within the hasher columns.
pub const NODE_INDEX_COL_IDX: usize = STATE_COL_OFFSET + STATE_WIDTH;
/// Hasher operation labels (selectors reversed, plus one).
pub const LINEAR_HASH_LABEL: u64 = 3;
pub const MP_VERIFY_LABEL: u64 = 11;
pub const MR_UPDATE_OLD_LABEL: u64 = 7;
pub const MR_UPDATE_NEW_LABEL: u64 = 15;
pub const RETURN_HASH_LABEL: u64 = 1;
pub const RETURN_STATE_LABEL: u64 = 9;

} // verus!
