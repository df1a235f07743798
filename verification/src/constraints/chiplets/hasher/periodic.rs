//! Layout of the hasher's periodic columns, which repeat every 32-row permutation cycle.

use vstd::prelude::*;

verus! {

/// Width of the permutation state.
pub const STATE_WIDTH: usize = 12;

/// 1 on the first row of each cycle.
pub const P_CYCLE_ROW_0: usize = 0;
/// 1 on row 30 of each cycle.
pub const P_CYCLE_ROW_30: usize = 1;
/// 1 on the last row (31) of each cycle.
pub const P_CYCLE_ROW_31: usize = 2;
/// 1 on the rows of the external rounds (1-4 and 27-30).
pub const P_IS_EXTERNAL: usize = 3;
/// 1 on the rows of the internal rounds (5-26).
pub const P_IS_INTERNAL: usize = 4;
/// First of the 12 external round constant columns, one per lane.
pub const P_ARK_EXT_START: usize = 5;
/// The internal round constant column (lane 0).
pub const P_ARK_INT: usize = P_ARK_EXT_START + STATE_WIDTH;
/// Number of periodic columns of the hasher.
pub const NUM_PERIODIC_COLUMNS: usize = P_ARK_INT + 1;

} // verus!
