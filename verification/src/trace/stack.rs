//! Stack columns of the main trace.

use vstd::prelude::*;

verus! {

/// Minimum depth of the operand stack (number of top-of-stack columns).
pub const MIN_STACK_DEPTH: usize = 16;
/// Index at which stack item columns start in the stack trace.
pub const STACK_TOP_OFFSET: usize = 0;
/// Number of bookkeeping and helper columns in the stack trace.
pub const NUM_STACK_HELPER_COLS: usize = 3;
/// Index of the b0 column (current stack depth).
pub const B0_COL_IDX: usize = STACK_TOP_OFFSET + MIN_STACK_DEPTH;
/// Index of the b1 column (address of the top item in the overflow table).
pub const B1_COL_IDX: usize = B0_COL_IDX + 1;
/// Index of the h0 helper column (`1 / (b0 - 16)` when `b0 != 16`, else 0).
pub const H0_COL_IDX: usize = B0_COL_IDX + 2;

/// Stack columns in the main execution trace (19 columns).
pub struct StackCols<T> {
    /// Top 16 stack elements s0-s15.
    pub top: [T; 16],
    /// Stack depth.
    pub b0: T,
    /// Overflow table parent address.
    pub b1: T,
    /// Helper: `1/(b0 - 16)` when `b0 != 16`, else 0.
    pub h0: T,
}


impl<T> StackCols<T> {
    /// Stack column `idx`, in layout order: the 16 top items, `b0`, `b1` and `h0`.
    pub open spec fn column(&self, idx: int) -> T {
        if idx < B0_COL_IDX {
            self.top@[idx]
        } else if idx == B0_COL_IDX {
            self.b0
        } else if idx == B1_COL_IDX {
            self.b1
        } else {
            self.h0
        }
    }

    /// Returns stack column `idx`.
    pub fn index(&self, idx: usize) -> (r: &T)
        requires
            idx < super::STACK_TRACE_WIDTH,
        ensures
            *r == self.column(idx as int),
    {
        if idx < B0_COL_IDX {
            &self.top[idx]
        } else if idx == B0_COL_IDX {
            &self.b0
        } else if idx == B1_COL_IDX {
            &self.b1
        } else {
            &self.h0
        }
    }
}

} // verus!
