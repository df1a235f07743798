//! Bus message coefficient indices (positions in the `beta_powers` array).

use vstd::prelude::*;

verus! {

pub const LABEL_IDX: usize = 0;
pub const ADDR_IDX: usize = 1;
pub const NODE_INDEX_IDX: usize = 2;
pub const STATE_START_IDX: usize = 3;
pub const CAPACITY_START_IDX: usize = 11;
pub const CAPACITY_DOMAIN_IDX: usize = CAPACITY_START_IDX + 1;

} // verus!
