//! Constraints of the main and auxiliary traces.

pub mod chiplets;
pub mod decoder;
pub mod op_flags;
pub mod range;
pub mod stack;
pub mod system;
pub mod tagging;
pub mod utils;
