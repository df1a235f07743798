//! Verified model of the Miden VM algebraic execution trace constraints.
//!
//! Constraints are evaluated over concrete field elements of the Goldilocks field and its
//! quadratic extension. Each `enforce_*` function appends the constraint values it asserts to a
//! [`constraint_set::ConstraintSet`], together with the row domain on which the constraint must
//! vanish.

pub mod constraint_recorder;
pub mod constraint_set;
pub mod constraints;
pub mod field;
pub mod opcodes;
pub mod prime;
pub mod text;
pub mod trace;

use vstd::prelude::*;

verus! {

} // verus!
