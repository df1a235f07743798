//! Kernel ROM chiplet labels.

use vstd::prelude::*;

verus! {

/// Label of a kernel procedure call (responding to SYSCALL).
pub const KERNEL_PROC_CALL_LABEL: u64 = 16;
/// Label of a kernel procedure initialization (public input digests).
pub const KERNEL_PROC_INIT_LABEL: u64 = 48;

} // verus!
