//! Stack constraints.

pub mod crypto;
pub mod ops;
pub mod stack_arith;
