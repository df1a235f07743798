//! Range checker columns of the main trace.

use vstd::prelude::*;

verus! {

/// Range check columns in the main execution trace (2 columns).
pub struct RangeCols<T> {
    /// Multiplicity: how many times this value is range-checked.
    pub multiplicity: T,
    /// The value being range-checked.
    pub value: T,
}

/// Column holding the multiplicity of how many times the value is being range-checked.
pub const M_COL_IDX: usize = super::RANGE_CHECK_TRACE_OFFSET;
/// Column holding the values being range-checked.
pub const V_COL_IDX: usize = super::RANGE_CHECK_TRACE_OFFSET + 1;
/// The LogUp column of the range checker in the auxiliary trace.
pub const B_RANGE_COL_IDX: usize = super::RANGE_CHECK_AUX_TRACE_OFFSET;

} // verus!
